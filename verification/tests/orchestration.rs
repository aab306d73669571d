use bulk_loader::config::{is_remote_path, split_nodes, CommandLine};
use bulk_loader::decode::FileType;
use bulk_loader::orchestrator::Orchestrator;

#[test]
fn window_never_admits_more_than_its_width() {
    let mut orch = Orchestrator::new(2);
    assert!(orch.can_start());
    orch.start_write();
    assert!(orch.can_start());
    orch.start_write();
    // The window is at capacity: no third write may start.
    assert!(!orch.can_start());
    assert_eq!(orch.in_flight(), 2);
    orch.finish_write(true);
    assert!(orch.can_start());
    assert_eq!(orch.in_flight(), 1);
}

#[test]
fn a_failed_write_frees_its_slot_and_the_run_still_succeeds() {
    let mut orch = Orchestrator::new(2);
    orch.start_write();
    orch.start_write();
    orch.finish_write(false);
    // The failure freed a slot exactly like a success would.
    assert!(orch.can_start());
    orch.start_write();
    orch.end_of_data();
    orch.finish_write(true);
    orch.finish_write(true);
    assert!(orch.run_succeeded());
    let (completed, failed) = orch.finished_counts();
    assert_eq!(completed, 2);
    assert_eq!(failed, 1);
}

#[test]
fn an_empty_source_is_a_successful_run_with_no_writes() {
    let mut orch = Orchestrator::new(4);
    orch.end_of_data();
    assert!(orch.run_succeeded());
    let (completed, failed) = orch.finished_counts();
    assert_eq!(completed, 0);
    assert_eq!(failed, 0);
}

#[test]
fn draining_ends_only_when_the_window_is_empty() {
    let mut orch = Orchestrator::new(3);
    orch.start_write();
    orch.start_write();
    orch.end_of_data();
    assert!(!orch.run_succeeded());
    orch.finish_write(true);
    assert!(!orch.run_succeeded());
    orch.finish_write(false);
    assert!(orch.run_succeeded());
}

#[test]
fn node_list_splits_on_commas() {
    let nodes = split_nodes("h1:9042,h2:9042,h3:9042");
    assert_eq!(nodes, vec![
        String::from("h1:9042"),
        String::from("h2:9042"),
        String::from("h3:9042"),
    ]);
    assert_eq!(split_nodes("single:1"), vec![String::from("single:1")]);
    assert_eq!(split_nodes(""), vec![String::from("")]);
}

#[test]
fn source_paths_classify_as_remote_or_local() {
    assert!(is_remote_path("s3://bucket/key.json"));
    assert!(is_remote_path("s3a://bucket/key.csv"));
    assert!(!is_remote_path("data/file.json"));
    assert!(!is_remote_path("s3:bucket"));
    assert!(!is_remote_path(""));
}

#[test]
fn command_line_carries_the_whole_configuration() {
    let args = CommandLine {
        source_path: String::from("s3://b/k.json"),
        source_file_type: FileType::JSON,
        database_username: String::from("u"),
        database_password: String::from("p"),
        database_nodes: String::from("h:9042"),
        database_keyspace_name: String::from("ks"),
        database_table: String::from("tbl"),
        batch_size: 100,
        concurrent_batches: 8,
        s3_endpoint: None,
        s3_access_key: None,
        s3_secret_access_key: None,
        s3_region: Some(String::from("minio")),
    };
    assert!(is_remote_path(&args.source_path));
    assert_eq!(args.batch_size, 100);
    assert_eq!(args.concurrent_batches, 8);
}

use bulk_loader::batch::{assemble_batches, BatchAssembler};
use bulk_loader::value::DataValue;

fn records(n: u64) -> Vec<DataValue> {
    (0..n).map(DataValue::UInt).collect()
}

#[test]
fn five_records_at_batch_size_two_make_three_batches() {
    let batches = assemble_batches(records(5), 2);
    assert_eq!(batches.len(), 3);
    assert_eq!(batches[0].records.len(), 2);
    assert_eq!(batches[1].records.len(), 2);
    assert_eq!(batches[2].records.len(), 1);
    assert_eq!(batches[0].id, 0);
    assert_eq!(batches[1].id, 1);
    assert_eq!(batches[2].id, 2);
}

#[test]
fn exact_multiple_has_a_full_final_batch() {
    let batches = assemble_batches(records(6), 3);
    assert_eq!(batches.len(), 2);
    assert_eq!(batches[1].records.len(), 3);
}

#[test]
fn empty_source_yields_zero_batches() {
    let batches = assemble_batches(Vec::new(), 4);
    assert_eq!(batches.len(), 0);
}

#[test]
fn fewer_records_than_batch_size_make_one_short_batch() {
    let batches = assemble_batches(records(3), 10);
    assert_eq!(batches.len(), 1);
    assert_eq!(batches[0].records.len(), 3);
}

#[test]
fn batches_keep_record_order() {
    let batches = assemble_batches(records(5), 2);
    let mut seen: Vec<u64> = Vec::new();
    for b in &batches {
        for r in &b.records {
            match r {
                DataValue::UInt(x) => seen.push(*x),
                other => panic!("unexpected record {:?}", other),
            }
        }
    }
    assert_eq!(seen, vec![0, 1, 2, 3, 4]);
}

#[test]
fn assembler_emits_exactly_on_the_boundary() {
    let mut assembler = BatchAssembler::new(2);
    assert!(assembler.push(DataValue::UInt(0)).is_none());
    let first = assembler.push(DataValue::UInt(1)).expect("second record completes a batch");
    assert_eq!(first.id, 0);
    assert_eq!(first.records.len(), 2);
    assert!(assembler.push(DataValue::UInt(2)).is_none());
    let last = assembler.finish().expect("one pending record is left");
    assert_eq!(last.id, 1);
    assert_eq!(last.records.len(), 1);
}

#[test]
fn finishing_with_nothing_pending_yields_no_batch() {
    let mut assembler = BatchAssembler::new(3);
    assert!(assembler.finish().is_none());
}

use bulk_loader::value::{ColumnBinding, DataValue};
use bulk_loader::writer::{bind_record, derive_field_names, insert_statement, StoreWriter, WriteError};

fn record(pairs: Vec<(&str, DataValue)>) -> DataValue {
    DataValue::Mapping(pairs.into_iter().map(|(k, v)| (String::from(k), v)).collect())
}

#[test]
fn insert_statement_names_every_field_once() {
    let fields = vec![String::from("a"), String::from("b"), String::from("c")];
    let stmt = insert_statement("ks", "tbl", &fields);
    assert_eq!(stmt.as_str(), "INSERT INTO ks.tbl (a, b, c) VALUES (:a, :b, :c)");
}

#[test]
fn insert_statement_with_one_field() {
    let fields = vec![String::from("only")];
    let stmt = insert_statement("k", "t", &fields);
    assert_eq!(stmt.as_str(), "INSERT INTO k.t (only) VALUES (:only)");
}

#[test]
fn field_names_come_from_the_record_in_order() {
    let r = record(vec![("b", DataValue::UInt(1)), ("a", DataValue::UInt(2))]);
    let names = derive_field_names(&r).unwrap();
    assert_eq!(names, vec![String::from("b"), String::from("a")]);
    assert!(derive_field_names(&DataValue::UInt(3)).is_none());
}

#[test]
fn schema_is_derived_once_and_never_recomputed() {
    let mut w = StoreWriter::new(String::from("ks"), String::from("tbl"));
    let first = vec![record(vec![("a", DataValue::UInt(1)), ("b", DataValue::UInt(2))])];
    w.ensure_schema(&first).unwrap();
    let stmt_before = w.statement();
    // A later batch with different fields must not change the schema.
    let later = vec![record(vec![("x", DataValue::UInt(9))])];
    w.ensure_schema(&later).unwrap();
    assert_eq!(w.statement(), stmt_before);
    assert_eq!(stmt_before.as_str(), "INSERT INTO ks.tbl (a, b) VALUES (:a, :b)");
}

#[test]
fn schema_underivable_from_a_non_mapping_record() {
    let mut w = StoreWriter::new(String::from("ks"), String::from("tbl"));
    let batch = vec![DataValue::UInt(1)];
    assert_eq!(w.ensure_schema(&batch).unwrap_err(), WriteError::SchemaUnderivable);
    assert!(!w.has_schema());
}

#[test]
fn null_field_is_bound_unset_so_stored_values_survive() {
    let schema = vec![String::from("a"), String::from("b")];
    let r = record(vec![("a", DataValue::Null), ("b", DataValue::UInt(1))]);
    let row = bind_record(&schema, &r).unwrap();
    assert!(matches!(row[0], ColumnBinding::Unset));
    assert!(matches!(row[1], ColumnBinding::BigInt(1)));
}

#[test]
fn bound_row_follows_schema_order_not_record_order() {
    let schema = vec![String::from("b"), String::from("a")];
    let r = record(vec![("a", DataValue::UInt(1)), ("b", DataValue::UInt(2))]);
    let row = bind_record(&schema, &r).unwrap();
    assert!(matches!(row[0], ColumnBinding::BigInt(2)));
    assert!(matches!(row[1], ColumnBinding::BigInt(1)));
}

#[test]
fn mismatched_field_set_fails_its_record() {
    let schema = vec![String::from("a"), String::from("b")];
    let wrong = record(vec![("a", DataValue::UInt(1)), ("c", DataValue::UInt(2))]);
    assert_eq!(bind_record(&schema, &wrong).unwrap_err(), WriteError::FieldSetMismatch);
    let not_a_mapping = DataValue::Bool(true);
    assert_eq!(bind_record(&schema, &not_a_mapping).unwrap_err(), WriteError::FieldSetMismatch);
}

#[test]
fn one_bad_batch_does_not_block_later_good_batches() {
    let mut w = StoreWriter::new(String::from("ks"), String::from("tbl"));
    let good = vec![record(vec![("a", DataValue::UInt(1)), ("b", DataValue::UInt(2))])];
    w.ensure_schema(&good).unwrap();
    assert!(w.bind_batch(&good).is_ok());
    // A batch with a mismatched record fails whole...
    let bad = vec![
        record(vec![("a", DataValue::UInt(3)), ("b", DataValue::UInt(4))]),
        record(vec![("a", DataValue::UInt(5)), ("c", DataValue::UInt(6))]),
    ];
    assert_eq!(w.bind_batch(&bad).unwrap_err(), WriteError::FieldSetMismatch);
    // ...and a later well-formed batch still succeeds against the same schema.
    let again = vec![record(vec![("a", DataValue::UInt(7)), ("b", DataValue::UInt(8))])];
    let rows = w.bind_batch(&again).unwrap();
    assert_eq!(rows.len(), 1);
    assert_eq!(rows[0].len(), 2);
}

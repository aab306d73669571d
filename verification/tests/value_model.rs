use bulk_loader::value::{ColumnBinding, DataValue};

fn text(s: &str) -> DataValue {
    DataValue::Text(String::from(s))
}

#[test]
fn null_binds_to_unset_not_explicit_null() {
    // A null input must become the unset sentinel, which omits the
    // column from the write; no explicit-null binding exists at all.
    let b = DataValue::Null.to_column_binding();
    assert!(matches!(b, ColumnBinding::Unset));
}

#[test]
fn small_unsigned_integer_keeps_its_value() {
    match DataValue::UInt(7).to_column_binding() {
        ColumnBinding::BigInt(x) => assert_eq!(x, 7),
        other => panic!("expected BigInt, got {:?}", other),
    }
}

#[test]
fn large_unsigned_integer_wraps_to_signed() {
    match DataValue::UInt(u64::MAX).to_column_binding() {
        ColumnBinding::BigInt(x) => assert_eq!(x, -1),
        other => panic!("expected BigInt, got {:?}", other),
    }
    match DataValue::UInt(1u64 << 63).to_column_binding() {
        ColumnBinding::BigInt(x) => assert_eq!(x, i64::MIN),
        other => panic!("expected BigInt, got {:?}", other),
    }
}

#[test]
fn signed_integer_passes_through() {
    match DataValue::Int(-42).to_column_binding() {
        ColumnBinding::BigInt(x) => assert_eq!(x, -42),
        other => panic!("expected BigInt, got {:?}", other),
    }
}

#[test]
fn float_bits_pass_through() {
    let bits = (1.5f64).to_bits();
    match DataValue::Float(bits).to_column_binding() {
        ColumnBinding::Double(x) => {
            assert_eq!(x, bits);
            assert_eq!(f64::from_bits(x), 1.5);
        },
        other => panic!("expected Double, got {:?}", other),
    }
}

#[test]
fn nested_values_convert_element_wise() {
    let v = DataValue::Mapping(vec![
        (String::from("xs"), DataValue::Sequence(vec![DataValue::UInt(1), DataValue::Null])),
        (String::from("name"), text("n")),
    ]);
    match v.to_column_binding() {
        ColumnBinding::Mapping(fields) => {
            assert_eq!(fields.len(), 2);
            assert_eq!(fields[0].0, "xs");
            match &fields[0].1 {
                ColumnBinding::List(items) => {
                    assert!(matches!(items[0], ColumnBinding::BigInt(1)));
                    assert!(matches!(items[1], ColumnBinding::Unset));
                },
                other => panic!("expected List, got {:?}", other),
            }
            assert_eq!(fields[1].0, "name");
            match &fields[1].1 {
                ColumnBinding::Text(s) => assert_eq!(s, "n"),
                other => panic!("expected Text, got {:?}", other),
            }
        },
        other => panic!("expected Mapping, got {:?}", other),
    }
}

#[test]
fn deep_eq_is_structural() {
    let a = DataValue::Sequence(vec![DataValue::UInt(1), text("x")]);
    let b = DataValue::Sequence(vec![DataValue::UInt(1), text("x")]);
    let c = DataValue::Sequence(vec![DataValue::UInt(2), text("x")]);
    assert!(a.deep_eq(&b));
    assert!(!a.deep_eq(&c));
    assert!(!DataValue::Null.deep_eq(&DataValue::Bool(false)));
    assert!(!DataValue::UInt(1).deep_eq(&DataValue::Int(1)));
}

use bulk_loader::decode::{
    decode_csv_line, decode_json_line, DecodeError, FileType, RecordDecoder,
};
use bulk_loader::value::DataValue;

#[test]
fn json_object_decodes_to_mapping() {
    let v = decode_json_line("{\"a\":1,\"b\":\"x\",\"c\":null}").unwrap();
    let expected = DataValue::Mapping(vec![
        (String::from("a"), DataValue::UInt(1)),
        (String::from("b"), DataValue::Text(String::from("x"))),
        (String::from("c"), DataValue::Null),
    ]);
    assert!(v.deep_eq(&expected));
}

#[test]
fn json_scalars_and_arrays_decode() {
    let v = decode_json_line("[1,-2,\"s\",true,null]").unwrap();
    let expected = DataValue::Sequence(vec![
        DataValue::UInt(1),
        DataValue::Int(-2),
        DataValue::Text(String::from("s")),
        DataValue::Bool(true),
        DataValue::Null,
    ]);
    assert!(v.deep_eq(&expected));
}

#[test]
fn json_float_decodes_to_bits() {
    let v = decode_json_line("2.5").unwrap();
    let expected = DataValue::Float((2.5f64).to_bits());
    assert!(v.deep_eq(&expected));
}

#[test]
fn malformed_json_is_an_error() {
    assert_eq!(decode_json_line("{oops").unwrap_err(), DecodeError::MalformedJson);
}

#[test]
fn csv_row_decodes_under_header() {
    let v = decode_csv_line("a,b,c", "1,2,hello").unwrap();
    let expected = DataValue::Mapping(vec![
        (String::from("a"), DataValue::UInt(1)),
        (String::from("b"), DataValue::UInt(2)),
        (String::from("c"), DataValue::Text(String::from("hello"))),
    ]);
    assert!(v.deep_eq(&expected));
}

#[test]
fn csv_row_matches_equivalent_json_line() {
    // The same logical record, once from CSV under its header and once
    // from JSON-lines, decodes to the same mapping.
    let from_csv = decode_csv_line("a,b,c", "1,2,3").unwrap();
    let from_json = decode_json_line("{\"a\":1,\"b\":2,\"c\":3}").unwrap();
    assert!(from_csv.deep_eq(&from_json));
}

#[test]
fn short_csv_row_is_an_error() {
    assert_eq!(decode_csv_line("a,b,c", "1,2").unwrap_err(), DecodeError::MalformedCsv);
}

#[test]
fn empty_csv_line_is_an_error() {
    assert_eq!(decode_csv_line("a,b,c", "").unwrap_err(), DecodeError::MalformedCsv);
}

#[test]
fn csv_decoder_keeps_its_header_for_every_line() {
    let decoder = RecordDecoder::new_csv(String::from("k,v"));
    let lines = vec![String::from("1,one"), String::from("2,two")];
    let records = decoder.decode_lines(&lines).unwrap();
    assert_eq!(records.len(), 2);
    let expected = DataValue::Mapping(vec![
        (String::from("k"), DataValue::UInt(2)),
        (String::from("v"), DataValue::Text(String::from("two"))),
    ]);
    assert!(records[1].deep_eq(&expected));
}

#[test]
fn json_decoder_decodes_every_line_independently() {
    let decoder = RecordDecoder::new_json();
    let lines = vec![String::from("{\"a\":1}"), String::from("{\"a\":2}")];
    let records = decoder.decode_lines(&lines).unwrap();
    assert_eq!(records.len(), 2);
    let expected = DataValue::Mapping(vec![(String::from("a"), DataValue::UInt(2))]);
    assert!(records[1].deep_eq(&expected));
}

#[test]
fn decode_stops_at_first_malformed_line() {
    let decoder = RecordDecoder::new_json();
    let lines = vec![String::from("{\"a\":1}"), String::from("nope["), String::from("{\"a\":3}")];
    assert_eq!(decoder.decode_lines(&lines).unwrap_err(), DecodeError::MalformedJson);
}

#[test]
fn file_types_are_distinct() {
    assert_ne!(FileType::JSON, FileType::CSV);
}

//! Decoding lines into records. A JSON-lines source decodes every line
//! independently; a CSV source consumes its first line once as the header
//! and decodes each later line by re-joining it with that header. Any
//! decode failure is fatal for the whole run.

use vstd::prelude::*;

use crate::value::DataValue;
use serde_json::Value as JsonValue;

verus! {

/// The format of a source file.
#[derive(Clone, Copy, Debug, PartialEq, Eq, Structural)]
pub enum FileType {
    JSON,
    CSV,
}

/// Why a line could not be decoded. Unlike a failed batch write, a
/// decode error terminates the run.
#[derive(Clone, Copy, Debug, PartialEq, Eq, Structural)]
pub enum DecodeError {
    /// The line is not one well-formed JSON value.
    MalformedJson,
    /// The line is not one well-formed CSV row under the cached header.
    MalformedCsv,
}

#[verifier::external_type_specification]
#[verifier::external_body]
pub struct ExJsonValue(serde_json::Value);

/// What one JSON-lines line decodes to, or nothing when the line is not
/// well-formed JSON. The result depends on the characters alone.
pub uninterp spec fn json_record_of(line: Seq<char>) -> Option<DataValue>;

/// What one CSV data row decodes to under a given header line: a mapping
/// keyed by the header's field names in order, each field value typed by
/// the reader's inference; nothing when the row is malformed. The result
/// depends on the two lines alone.
pub uninterp spec fn csv_record_of(header: Seq<char>, line: Seq<char>) -> Option<DataValue>;

/// Converts a `serde_json` tree into the crate's own value type, one node
/// for one: arrays element-wise, objects entry-wise in the order the
/// object iterates, and numbers as unsigned, signed or floating-point
/// bits, tried in that order.
#[verifier::external_body]
fn value_from_json(v: JsonValue) -> DataValue {
    match v {
        JsonValue::Null => DataValue::Null,
        JsonValue::Bool(b) => DataValue::Bool(b),
        JsonValue::String(s) => DataValue::Text(s),
        JsonValue::Number(n) => match (n.as_u64(), n.as_i64()) {
            (Some(u), _) => DataValue::UInt(u),
            (None, Some(i)) => DataValue::Int(i),
            _ => DataValue::Float(n.as_f64().map(|x| x.to_bits()).unwrap_or(0)),
        },
        JsonValue::Array(a) => DataValue::Sequence(a.into_iter().map(value_from_json).collect()),
        JsonValue::Object(o) => DataValue::Mapping(
            o.into_iter().map(|(k, x)| (k, value_from_json(x))).collect(),
        ),
    }
}

/// Decode one JSON-lines line. Relies on `serde_json::from_str`: one
/// line is one JSON value, and a malformed line is an error.
#[verifier::external_body]
pub fn decode_json_line(line: &str) -> (r: Result<DataValue, DecodeError>)
    ensures
        match r {
            Ok(v) => json_record_of(line@) == Some(v),
            Err(e) => json_record_of(line@) is None && e == DecodeError::MalformedJson,
        },
{
    match serde_json::from_str::<serde_json::Value>(line) {
        Ok(v) => Ok(value_from_json(v)),
        Err(_) => Err(DecodeError::MalformedJson),
    }
}

/// Decode one CSV data row by re-joining it with the cached header line
/// and reading exactly one record. Relies on csv's `Reader`: the header
/// names the fields and each field value is typed by inference.
#[verifier::external_body]
pub fn decode_csv_line(header: &str, line: &str) -> (r: Result<DataValue, DecodeError>)
    ensures
        match r {
            Ok(v) => csv_record_of(header@, line@) == Some(v),
            Err(e) => csv_record_of(header@, line@) is None && e == DecodeError::MalformedCsv,
        },
{
    let joined = format!("{header}\n{line}");
    let mut reader = csv::Reader::from_reader(joined.as_bytes());
    match reader.deserialize::<std::collections::BTreeMap<String, JsonValue>>().next() {
        Some(Ok(m)) => Ok(DataValue::Mapping(
            m.into_iter().map(|(k, x)| (k, value_from_json(x))).collect(),
        )),
        _ => Err(DecodeError::MalformedCsv),
    }
}

/// Decodes the successive data lines of one source. The format and, for
/// CSV, the header line consumed at source-open time are fixed for the
/// life of the decoder.
pub struct RecordDecoder {
    file_type: FileType,
    csv_header: Option<String>,
}

impl RecordDecoder {
    pub closed spec fn file_type(&self) -> FileType {
        self.file_type
    }

    pub closed spec fn header(&self) -> Option<Seq<char>> {
        match self.csv_header {
            Some(h) => Some(h@),
            None => None,
        }
    }

    /// A JSON decoder keeps no header; a CSV decoder always has one.
    pub closed spec fn wf(&self) -> bool {
        match self.file_type {
            FileType::JSON => self.csv_header is None,
            FileType::CSV => self.csv_header is Some,
        }
    }

    /// What a given data line decodes to under this decoder.
    pub open spec fn spec_decoded(&self, line: Seq<char>) -> Option<DataValue> {
        match self.file_type() {
            FileType::JSON => json_record_of(line),
            FileType::CSV => csv_record_of(self.header().unwrap(), line),
        }
    }

    /// The error a malformed line reports under this decoder.
    pub open spec fn spec_error(&self) -> DecodeError {
        match self.file_type() {
            FileType::JSON => DecodeError::MalformedJson,
            FileType::CSV => DecodeError::MalformedCsv,
        }
    }

    /// A decoder for a JSON-lines source.
    pub fn new_json() -> (r: RecordDecoder)
        ensures
            r.wf(),
            r.file_type() == FileType::JSON,
    {
        RecordDecoder { file_type: FileType::JSON, csv_header: None }
    }

    /// A decoder for a CSV source whose header line was read once when
    /// the source was opened.
    pub fn new_csv(header: String) -> (r: RecordDecoder)
        ensures
            r.wf(),
            r.file_type() == FileType::CSV,
            r.header() == Some(header@),
    {
        RecordDecoder { file_type: FileType::CSV, csv_header: Some(header) }
    }

    /// Decode a run of data lines, fail-fast: the records of every line
    /// in order, or the error of the first malformed line, which is
    /// fatal for the whole run.
    #[verifier::loop_isolation(false)]
    pub fn decode_lines(&self, lines: &Vec<String>) -> (r: Result<Vec<DataValue>, DecodeError>)
        requires
            self.wf(),
        ensures
            match r {
                Ok(records) => records@.len() == lines@.len() && forall|i: int|
                    0 <= i < lines@.len() ==> self.spec_decoded((#[trigger] lines@[i])@) == Some(
                        records@[i],
                    ),
                Err(e) => e == self.spec_error() && exists|i: int|
                    {
                        &&& 0 <= i < lines@.len()
                        &&& self.spec_decoded((#[trigger] lines@[i])@) is None
                        &&& forall|j: int|
                            0 <= j < i ==> self.spec_decoded((#[trigger] lines@[j])@) is Some
                    },
            },
    {
        let mut records: Vec<DataValue> = Vec::new();
        let mut i: usize = 0;
        while i < lines.len()
            invariant
                i <= lines@.len(),
                records@.len() == i,
                forall|j: int|
                    0 <= j < i ==> self.spec_decoded((#[trigger] lines@[j])@) == Some(
                        records@[j],
                    ),
            decreases lines@.len() - i,
        {
            match self.decode_line(lines[i].as_str()) {
                Ok(v) => {
                    records.push(v);
                },
                Err(e) => {
                    return Err(e);
                },
            }
            i = i + 1;
        }
        Ok(records)
    }

    /// Decode one data line under this decoder's format.
    pub fn decode_line(&self, line: &str) -> (r: Result<DataValue, DecodeError>)
        requires
            self.wf(),
        ensures
            match r {
                Ok(v) => self.spec_decoded(line@) == Some(v),
                Err(e) => self.spec_decoded(line@) is None && e == self.spec_error(),
            },
    {
        match &self.csv_header {
            None => decode_json_line(line),
            Some(header) => decode_csv_line(header.as_str(), line),
        }
    }
}

} // verus!

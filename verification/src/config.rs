//! The configuration bundle a run starts from, and the two small rules
//! applied to it: how the database node list is split and how a source
//! path is classified as local or remote.

use vstd::prelude::*;

use crate::decode::FileType;
use crate::writer::{names_of, spec_join};

verus! {

/// Everything one invocation needs: source location and format, store
/// credentials and endpoints, target identifiers, batch size, concurrency
/// width, and the optional object-storage settings for remote sources.
/// Gathered and validated by the command-line layer around the library.
pub struct CommandLine {
    pub source_path: String,
    pub source_file_type: FileType,
    pub database_username: String,
    pub database_password: String,
    /// Comma separated database node (host:port) list.
    pub database_nodes: String,
    pub database_keyspace_name: String,
    pub database_table: String,
    /// Records per batched write.
    pub batch_size: u32,
    /// How many batch writes may be in flight at once.
    pub concurrent_batches: usize,
    pub s3_endpoint: Option<String>,
    pub s3_access_key: Option<String>,
    pub s3_secret_access_key: Option<String>,
    pub s3_region: Option<String>,
}

/// True when a source path names a remote object-storage location rather
/// than a local file: it starts with the `s3://` or `s3a://` scheme.
pub open spec fn spec_is_remote_path(s: Seq<char>) -> bool {
    s.len() >= "s3://"@.len() && s.take("s3://"@.len() as int) == "s3://"@ || s.len()
        >= "s3a://"@.len() && s.take("s3a://"@.len() as int) == "s3a://"@
}

/// Relies on `str::starts_with`: true exactly when the string is at
/// least as long as the prefix and opens with it, character for
/// character.
#[verifier::external_body]
fn str_starts_with(s: &str, prefix: &str) -> (r: bool)
    ensures
        r == (s@.len() >= prefix@.len() && s@.take(prefix@.len() as int) == prefix@),
{
    s.starts_with(prefix)
}

/// Classify a source path: remote object storage or local file.
pub fn is_remote_path(source_path: &str) -> (r: bool)
    ensures
        r == spec_is_remote_path(source_path@),
{
    str_starts_with(source_path, "s3://") || str_starts_with(source_path, "s3a://")
}

/// The database node list: the comma separated entries of the
/// configured string, in order. Relies on `str::split` with a comma
/// separator: the parts contain no comma, there is at least one part (a
/// string without commas is one part, even empty), and re-joining the
/// parts with commas gives the input back.
#[verifier::external_body]
pub fn split_nodes(nodes_string: &str) -> (r: Vec<String>)
    ensures
        r@.len() >= 1,
        spec_join(names_of(r@), ","@) == nodes_string@,
        forall|i: int| 0 <= i < r@.len() ==> !(#[trigger] r@[i])@.contains(','),
{
    nodes_string.split(',').map(|part| part.to_owned()).collect()
}

} // verus!

//! The settings of the server and the options of its command line.

use std::path::PathBuf;
use vstd::prelude::*;
use vstd::string::*;

use crate::postgres::PostgresqlStorageConfig;

verus! {

/// A path of the file system, as the standard library holds it.
#[verifier::external_type_specification]
#[verifier::external_body]
pub struct ExPathBuf(PathBuf);

/// `PathBuf::clone` of the standard library: the copy of a path is that
/// path.
pub assume_specification[ <PathBuf as Clone>::clone ](path: &PathBuf) -> (copy: PathBuf)
    ensures
        copy == *path,
;

/// Where the server logs.
#[derive(Debug, PartialEq, Eq)]
pub struct Logging {
    pub path: PathBuf,
}

impl Clone for Logging {
    fn clone(&self) -> (copy: Logging)
        ensures
            copy == *self,
    {
        Logging { path: self.path.clone() }
    }
}

/// Where the server listens.
#[derive(Debug, Clone, PartialEq, Eq)]
pub struct Service {
    /// The host on which the API is exposed, as `0.0.0.0`.
    pub host: String,
    /// The port on which the API is exposed.
    pub port: u16,
    /// The size beyond which the body of a POST request is refused, in
    /// bytes.
    pub content_length_limit: u64,
}

/// All that the server is set up with.
#[derive(Debug, Clone, PartialEq, Eq)]
pub struct Settings {
    pub mode: String,
    pub logging: Logging,
    pub postgresql: PostgresqlStorageConfig,
    pub service: Service,
}

/// What the command line asks the server to do.
#[derive(Debug, Clone, Copy, PartialEq, Eq, Structural)]
pub enum Command {
    /// Serve the API with the given configuration.
    Run,
    /// Print the configuration.
    Config,
}

/// The options of the command line.
#[derive(Debug, PartialEq, Eq)]
pub struct Opts {
    /// The directory of the configuration files.
    pub config_dir: PathBuf,
    /// The run mode, as `testing`, `dev` or `prod`.
    pub run_mode: Option<String>,
    /// Settings to override, each as `key=value`.
    pub overrides: Vec<String>,
    pub cmd: Command,
}

/// The first `=` of the text stands at `place`.
pub open spec fn first_equals_sign(entry: Seq<char>, place: int) -> bool {
    &&& 0 <= place < entry.len()
    &&& entry[place] == '='
    &&& forall|i: int| 0 <= i < place ==> entry[i] != '='
}

/// The key and the value of an override: what stands before its first
/// `=` and what stands after it. A text without `=` is no override.
pub open spec fn override_pair(entry: Seq<char>) -> Option<(Seq<char>, Seq<char>)> {
    if exists|place: int| first_equals_sign(entry, place) {
        let place = choose|place: int| first_equals_sign(entry, place);
        Some((entry.subrange(0, place), entry.subrange(place + 1, entry.len() as int)))
    } else {
        None
    }
}

/// Splits an override of the command line into its key and its value.
pub fn split_override(entry: &str) -> (pair: Option<(&str, &str)>)
    ensures
        match pair {
            Some((key, value)) => override_pair(entry@) == Some((key@, value@)),
            None => override_pair(entry@) is None,
        },
{
    let length: usize = entry.unicode_len();
    let mut i: usize = 0;
    while i < length
        invariant
            length == entry@.len(),
            i <= length,
            forall|k: int| 0 <= k < i ==> entry@[k] != '=',
        decreases length - i,
    {
        if entry.get_char(i) == '=' {
            proof {
                assert(first_equals_sign(entry@, i as int));
                let place = choose|place: int| first_equals_sign(entry@, place);
                if place < i {
                    assert(entry@[place] != '=');
                }
                assert(place == i);
            }
            return Some((entry.substring_char(0, i), entry.substring_char(i + 1, length)));
        }
        i += 1;
    }
    assert forall|place: int| !first_equals_sign(entry@, place) by {
        if 0 <= place < entry@.len() {
            assert(entry@[place] != '=');
        }
    }
    None
}

} // verus!

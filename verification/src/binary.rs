//! The managed executable: where it is, and which version it reports.

use crate::errors::StartError;
use crate::text::{is_blank, is_blank_text, trim, trimmed};
use vstd::prelude::*;

verus! {

/// Where the managed executable was found.
#[derive(Clone, Copy, Debug, PartialEq, Eq, Structural)]
pub enum BinarySource {
    /// In the application's own `bin` directory.
    AppBin,
    /// On the search path of this process.
    SearchPath,
}

/// The managed executable: its path, and where it was found.
#[derive(Debug)]
pub struct BinaryLocation {
    pub path: String,
    pub source: BinarySource,
}

/// The managed executable that the given facts lead to: the one at `local` if it
/// exists, else the one found on the search path, if any.
pub open spec fn binary_choice(
    local: String,
    local_exists: bool,
    on_search_path: Option<String>,
) -> Option<BinaryLocation> {
    if local_exists {
        Some(BinaryLocation { path: local, source: BinarySource::AppBin })
    } else {
        match on_search_path {
            Some(p) => Some(BinaryLocation { path: p, source: BinarySource::SearchPath }),
            None => None,
        }
    }
}

/// Picks the managed executable: the one at `local` if it exists, else the one
/// found on the search path, if any.
pub fn nebula_bin_path(local: String, local_exists: bool, on_search_path: Option<String>)
    -> (found: Option<BinaryLocation>)
    ensures
        found == binary_choice(local, local_exists, on_search_path),
        found is Some <==> local_exists || on_search_path is Some,
{
    if local_exists {
        Some(BinaryLocation { path: local, source: BinarySource::AppBin })
    } else {
        match on_search_path {
            Some(path) => Some(BinaryLocation { path, source: BinarySource::SearchPath }),
            None => None,
        }
    }
}

/// Picks the managed executable as `nebula_bin_path` does, and fails with
/// `BinaryNotFound` exactly where there is none.
pub fn ensure_nebula(local: String, local_exists: bool, on_search_path: Option<String>)
    -> (found: Result<BinaryLocation, StartError>)
    ensures
        match binary_choice(local, local_exists, on_search_path) {
            Some(location) => found == Ok::<BinaryLocation, StartError>(location),
            None => found == Err::<BinaryLocation, StartError>(StartError::BinaryNotFound),
        },
{
    match nebula_bin_path(local, local_exists, on_search_path) {
        Some(location) => Ok(location),
        None => Err(StartError::BinaryNotFound),
    }
}

/// The arguments with which the managed executable is asked for its version.
pub fn version_args() -> (args: Vec<String>)
    ensures
        args.deep_view() == seq!["-version"@],
{
    let mut args: Vec<String> = Vec::new();
    args.push(String::from_str("-version"));
    args
}

/// The version that the managed executable reports: what it printed, without
/// the white space around it, if it ended with success and printed anything.
pub open spec fn version_of(success: bool, output: Seq<char>) -> Option<Seq<char>> {
    if success && !is_blank(output) {
        Some(trimmed(output))
    } else {
        None
    }
}

/// Reads the version out of what the executable printed when it was asked for
/// it, where `success` tells whether it ended with success.
pub fn nebula_version(success: bool, output: &str) -> (version: Option<String>)
    ensures
        match version {
            Some(v) => version_of(success, output@) == Some(v@),
            None => version_of(success, output@) is None,
        },
{
    if !success || is_blank_text(output) {
        None
    } else {
        Some(trim(output))
    }
}

} // verus!

//! A filesystem-backed directory: byte-addressable files identified by
//! relative paths under one root directory.
//!
//! The library holds the verified core: path resolution against the root,
//! lazy materialization of the root directory, interpretation of the
//! outcomes that the operating system reports for each operation, the
//! read-handle and write-sink bookkeeping, and the subscription registry
//! for change notification. The calls into the operating system itself
//! are made by a thin unverified shell around this crate.

use vstd::prelude::*;

pub mod directory;
pub mod errors;
pub mod handle;
pub mod model;
pub mod watch;

verus! {

/// The name of the single designated metadata file whose changes are
/// watched under a root.
pub fn meta_file_name() -> (s: &'static str)
    ensures
        s@ == "meta.json"@,
{
    "meta.json"
}

} // verus!

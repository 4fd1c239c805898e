//! The one question the shell asks the file system itself.

use vstd::prelude::*;

verus! {

/// Asks `std::path::Path::exists` whether something exists at `path`.
///
/// The answer depends on the file system at the moment of the call, so
/// nothing is claimed of it: callers are verified for either answer.
#[verifier::external_body]
pub(crate) fn path_exists(path: &str) -> (found: bool) {
    std::path::Path::new(path).exists()
}

} // verus!

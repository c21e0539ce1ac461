//! File-system paths, which the library carries through without looking
//! inside.

use vstd::prelude::*;

verus! {

/// `std::path::PathBuf` of the standard library. The library carries a path
/// through as it is and never looks inside.
#[verifier::external_type_specification]
#[verifier::external_body]
pub struct ExPathBuf(std::path::PathBuf);

/// `PathBuf::clone` of the standard library: the copy is the path that was
/// copied.
pub assume_specification[ <std::path::PathBuf as Clone>::clone ](
    path: &std::path::PathBuf,
) -> (copy: std::path::PathBuf)
    ensures
        copy == *path,
;

} // verus!

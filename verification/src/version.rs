//! The version of the native header the binding was generated against.

use vstd::prelude::*;

verus! {

/// A semantic version triple.
#[derive(Debug, Clone, Copy, Eq, PartialEq, Hash, Structural)]
pub struct Version {
    pub major: i32,
    pub minor: i32,
    pub revision: i32,
}

impl Version {
    /// The version of the native header from which the binding tables in this
    /// crate were taken.
    pub fn get_header_version() -> (r: Version)
        ensures
            r.major == 3,
            r.minor == 4,
            r.revision == 0,
    {
        Version { major: 3, minor: 4, revision: 0 }
    }
}

} // verus!

//! Errors the core detects before any remote call is attempted.

use vstd::prelude::*;

verus! {

/// A validation failure: detected while checking the desired configuration,
/// never retried, always fatal to the run.
#[derive(Clone, Debug)]
pub enum Error {
    /// A record name that is empty or holds a character invalid for DNS
    /// labels. Carries the offending raw name.
    InvalidName { name: String },
    /// Two desired records share one identity key. Carries the normalized
    /// name of the duplicated record and the positions of the two records
    /// in the desired list.
    DuplicateIdentity { name: String, first: usize, second: usize },
}

} // verus!

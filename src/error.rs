use vstd::prelude::*;

verus! {

/// What can go wrong in the authenticator's operations.
#[derive(Clone, Copy, Debug, PartialEq, Eq, Structural)]
pub enum AuthError {
    /// The configuration breaks one of its invariants.
    InvalidConfig,
    /// A stored secret is not a valid string of the configured encoding.
    MalformedKey,
    /// The operating system's secure random source could not be read.
    RandomSourceUnavailable,
}

} // verus!

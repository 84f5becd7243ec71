use vstd::prelude::*;

verus! {

/// An account identity: 32 bytes held as two machine words. The core
/// never authenticates an identity; it only compares identities for
/// equality, so the bytes themselves stay opaque.
#[derive(Clone, Copy, Debug, PartialEq, Eq, Structural)]
pub struct AccountId {
    pub hi: u128,
    pub lo: u128,
}

} // verus!

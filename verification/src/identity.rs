use vstd::prelude::*;

verus! {

/// An opaque caller identity: the holder of a signing key, as the
/// registry sees it once the signature has been verified by the
/// identity collaborator. The registry only ever compares identities
/// for equality, so an identity is modeled as a plain numeric id.
#[derive(Clone, Copy, Debug, PartialEq, Eq, Structural)]
pub struct Identity {
    pub id: u64,
}

} // verus!

use vstd::prelude::*;

verus! {

/// The four rejection outcomes of the registry operations. Every failed call
/// returns exactly one of these and leaves the registry unchanged.
#[derive(Clone, Copy, Debug, PartialEq, Eq, Structural)]
pub enum Error {
    /// `create_claim` was attempted on a proof that is already registered.
    ProofAlreadyClaimed,
    /// `revoke_claim` or `transfer` was attempted on an absent proof.
    NoSuchProof,
    /// `revoke_claim` or `transfer` was attempted by an account other than
    /// the recorded owner.
    NotProofOfOwner,
    /// `create_claim` was attempted with a proof longer than the configured
    /// `max_proof_size`.
    ProofOutOfMaxSize,
}

} // verus!

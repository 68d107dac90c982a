//! The state-transition rules of the registry, as pure functions from the
//! abstract registry map to the next map or an error. The executable
//! operations of `registry` promise to follow these rules exactly, and the
//! lemmas of `laws` are stated over them.

use crate::errors::Error;
use crate::types::{AccountId, BlockNumber, Claim};
use vstd::prelude::*;

verus! {

/// Outcome of `create_claim`: existence is checked before size, so a
/// too-large proof that collides with an existing entry reports
/// `ProofAlreadyClaimed`. On success the proof maps to the caller and the
/// height current at the call.
pub open spec fn create_outcome(
    claims: Map<Seq<u8>, Claim>,
    caller: AccountId,
    proof_bytes: Seq<u8>,
    height: BlockNumber,
    max_size: nat,
) -> Result<Map<Seq<u8>, Claim>, Error> {
    if claims.contains_key(proof_bytes) {
        Err(Error::ProofAlreadyClaimed)
    } else if proof_bytes.len() > max_size {
        Err(Error::ProofOutOfMaxSize)
    } else {
        Ok(claims.insert(proof_bytes, (caller, height)))
    }
}

/// Outcome of `revoke_claim`: only the recorded owner of an existing proof
/// may remove its entry.
pub open spec fn revoke_outcome(
    claims: Map<Seq<u8>, Claim>,
    caller: AccountId,
    proof_bytes: Seq<u8>,
) -> Result<Map<Seq<u8>, Claim>, Error> {
    if !claims.contains_key(proof_bytes) {
        Err(Error::NoSuchProof)
    } else if claims[proof_bytes].0 != caller {
        Err(Error::NotProofOfOwner)
    } else {
        Ok(claims.remove(proof_bytes))
    }
}

/// Outcome of `transfer`: only the recorded owner of an existing proof may
/// reassign it. The receiver is not validated — any account is accepted,
/// the caller itself included — and the recorded registration height is
/// preserved.
pub open spec fn transfer_outcome(
    claims: Map<Seq<u8>, Claim>,
    caller: AccountId,
    proof_bytes: Seq<u8>,
    receiver: AccountId,
) -> Result<Map<Seq<u8>, Claim>, Error> {
    if !claims.contains_key(proof_bytes) {
        Err(Error::NoSuchProof)
    } else if claims[proof_bytes].0 != caller {
        Err(Error::NotProofOfOwner)
    } else {
        Ok(claims.insert(proof_bytes, (receiver, claims[proof_bytes].1)))
    }
}

} // verus!

//! Laws of the registry rules: what the transition functions of `rules`
//! guarantee across calls. Each lemma is stated over an arbitrary registry
//! map; together with the contracts of `registry`, which tie every
//! operation to these transition functions, they hold of every sequence of
//! operations on a `Pallet`.

use crate::errors::Error;
use crate::rules::{create_outcome, revoke_outcome, transfer_outcome};
use crate::types::{AccountId, BlockNumber, Claim};
use vstd::prelude::*;

verus! {

/// A proof not yet registered and within the size bound is always accepted,
/// and the new map returns the caller and the height current at the call.
pub proof fn lemma_create_registers(
    claims: Map<Seq<u8>, Claim>,
    caller: AccountId,
    proof_bytes: Seq<u8>,
    height: BlockNumber,
    max_size: nat,
)
    requires
        !claims.contains_key(proof_bytes),
        proof_bytes.len() <= max_size,
    ensures
        create_outcome(claims, caller, proof_bytes, height, max_size) matches Ok(m)
            && m.contains_key(proof_bytes) && m[proof_bytes] == (caller, height),
{
}

/// Registering the same proof twice fails the second time with
/// `ProofAlreadyClaimed`, whoever calls and whatever the height, and leaves
/// the map as the first call left it.
pub proof fn lemma_recreate_fails(
    claims: Map<Seq<u8>, Claim>,
    caller1: AccountId,
    caller2: AccountId,
    proof_bytes: Seq<u8>,
    height1: BlockNumber,
    height2: BlockNumber,
    max_size: nat,
)
    requires
        create_outcome(claims, caller1, proof_bytes, height1, max_size) is Ok,
    ensures
        create_outcome(claims, caller1, proof_bytes, height1, max_size) matches Ok(m)
            && create_outcome(m, caller2, proof_bytes, height2, max_size) == Err::<
            Map<Seq<u8>, Claim>,
            Error,
        >(Error::ProofAlreadyClaimed),
{
}

/// Revoking a proof that was never registered fails with `NoSuchProof`.
pub proof fn lemma_revoke_absent_fails(
    claims: Map<Seq<u8>, Claim>,
    caller: AccountId,
    proof_bytes: Seq<u8>,
)
    requires
        !claims.contains_key(proof_bytes),
    ensures
        revoke_outcome(claims, caller, proof_bytes) == Err::<Map<Seq<u8>, Claim>, Error>(
            Error::NoSuchProof,
        ),
{
}

/// Revoking by an account other than the recorded owner fails with
/// `NotProofOfOwner`, so the entry stays intact.
pub proof fn lemma_revoke_non_owner_fails(
    claims: Map<Seq<u8>, Claim>,
    caller: AccountId,
    proof_bytes: Seq<u8>,
)
    requires
        claims.contains_key(proof_bytes),
        claims[proof_bytes].0 != caller,
    ensures
        revoke_outcome(claims, caller, proof_bytes) == Err::<Map<Seq<u8>, Claim>, Error>(
            Error::NotProofOfOwner,
        ),
{
}

/// After a successful revocation the proof is absent, so revoking it a
/// second time fails with `NoSuchProof`, whoever calls.
pub proof fn lemma_revoke_removes(
    claims: Map<Seq<u8>, Claim>,
    caller: AccountId,
    caller2: AccountId,
    proof_bytes: Seq<u8>,
)
    requires
        revoke_outcome(claims, caller, proof_bytes) is Ok,
    ensures
        revoke_outcome(claims, caller, proof_bytes) matches Ok(m) && !m.contains_key(proof_bytes)
            && revoke_outcome(m, caller2, proof_bytes) == Err::<Map<Seq<u8>, Claim>, Error>(
            Error::NoSuchProof,
        ),
{
}

/// After a successful transfer the owner is the receiver and the recorded
/// registration height is unchanged; a later revocation by the previous
/// owner (if distinct from the receiver) fails with `NotProofOfOwner`,
/// while one by the receiver succeeds.
pub proof fn lemma_transfer_reassigns(
    claims: Map<Seq<u8>, Claim>,
    caller: AccountId,
    proof_bytes: Seq<u8>,
    receiver: AccountId,
)
    requires
        transfer_outcome(claims, caller, proof_bytes, receiver) is Ok,
    ensures
        transfer_outcome(claims, caller, proof_bytes, receiver) matches Ok(m) && {
            &&& m.contains_key(proof_bytes)
            &&& m[proof_bytes].0 == receiver
            &&& m[proof_bytes].1 == claims[proof_bytes].1
            &&& caller != receiver ==> revoke_outcome(m, caller, proof_bytes) == Err::<
                Map<Seq<u8>, Claim>,
                Error,
            >(Error::NotProofOfOwner)
            &&& revoke_outcome(m, receiver, proof_bytes) is Ok
        },
{
}

/// Registering an unclaimed proof longer than the size bound fails with
/// `ProofOutOfMaxSize`, so no entry is created.
pub proof fn lemma_oversize_create_fails(
    claims: Map<Seq<u8>, Claim>,
    caller: AccountId,
    proof_bytes: Seq<u8>,
    height: BlockNumber,
    max_size: nat,
)
    requires
        !claims.contains_key(proof_bytes),
        proof_bytes.len() > max_size,
    ensures
        create_outcome(claims, caller, proof_bytes, height, max_size) == Err::<
            Map<Seq<u8>, Claim>,
            Error,
        >(Error::ProofOutOfMaxSize),
{
}

} // verus!

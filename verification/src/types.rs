use vstd::prelude::*;

verus! {

/// An account identifier. Opaque to the registry: it is only ever compared
/// for equality, never inspected.
pub type AccountId = u64;

/// A block number: the monotonically increasing sequence number of the
/// enclosing execution context, supplied by the host.
pub type BlockNumber = u64;

/// The value stored for a registered proof: the current owner and the block
/// number recorded when the claim was created.
pub type Claim = (AccountId, BlockNumber);

/// Assembly-time configuration of the registry.
#[derive(Clone, Copy, Debug, PartialEq, Eq, Structural)]
pub struct Config {
    /// Upper bound, in bytes, on the length of a proof accepted by
    /// `create_claim`.
    pub max_proof_size: u32,
}

} // verus!

//! The claim registry itself: the map from proof bytes to claims, and the
//! three operations that act on it. Each operation promises to follow the
//! corresponding transition rule of `rules` exactly, and a failed call
//! leaves the registry unchanged.

use crate::errors::Error;
use crate::events::{Event, EventView};
use crate::rules::{create_outcome, revoke_outcome, transfer_outcome};
use crate::types::{AccountId, BlockNumber, Claim, Config};
use vstd::map::*;
use vstd::prelude::*;

verus! {

/// One stored claim: the proof bytes that key it, the current owner and the
/// block number recorded at creation.
pub(crate) struct Entry {
    pub(crate) proof_bytes: Vec<u8>,
    pub(crate) owner: AccountId,
    pub(crate) registered_at: BlockNumber,
}

/// True when some entry of `s` is keyed by the proof bytes `k`.
spec fn has_proof(s: Seq<Entry>, k: Seq<u8>) -> bool {
    exists|i: int| 0 <= i < s.len() && s[i].proof_bytes@ == k
}

/// The index of the entry of `s` keyed by `k`; meaningful only when
/// `has_proof(s, k)` holds.
spec fn proof_index(s: Seq<Entry>, k: Seq<u8>) -> int {
    choose|i: int| 0 <= i < s.len() && s[i].proof_bytes@ == k
}

/// The registry map described by the entry sequence `s`.
spec fn claims_of(s: Seq<Entry>) -> Map<Seq<u8>, Claim> {
    Map::new(
        |k: Seq<u8>| has_proof(s, k),
        |k: Seq<u8>| (s[proof_index(s, k)].owner, s[proof_index(s, k)].registered_at),
    )
}

/// True when no two entries of `s` share the same proof bytes, so that `s`
/// describes a partial function from proof to claim.
spec fn entries_unique(s: Seq<Entry>) -> bool {
    forall|i: int, j: int|
        0 <= i < s.len() && 0 <= j < s.len() && i != j ==> s[i].proof_bytes@ != s[j].proof_bytes@
}

/// With unique keys, the entry at index `i` is exactly what the registry map
/// returns for its proof bytes.
proof fn lemma_claims_of_at(s: Seq<Entry>, i: int)
    requires
        entries_unique(s),
        0 <= i < s.len(),
    ensures
        claims_of(s).contains_key(s[i].proof_bytes@),
        claims_of(s)[s[i].proof_bytes@] == (s[i].owner, s[i].registered_at),
{
    let k = s[i].proof_bytes@;
    assert(has_proof(s, k));
    let j = proof_index(s, k);
    assert(0 <= j < s.len() && s[j].proof_bytes@ == k);
    if i != j {
        assert(s[i].proof_bytes@ != s[j].proof_bytes@);
    }
}

/// Appending an entry with a fresh key inserts exactly that claim into the
/// registry map.
proof fn lemma_claims_of_push(s: Seq<Entry>, e: Entry)
    requires
        entries_unique(s),
        !has_proof(s, e.proof_bytes@),
    ensures
        entries_unique(s.push(e)),
        claims_of(s.push(e)) == claims_of(s).insert(e.proof_bytes@, (e.owner, e.registered_at)),
{
    let s2 = s.push(e);
    let n = s.len() as int;
    assert(s2[n] == e);
    assert forall|i: int, j: int|
        0 <= i < s2.len() && 0 <= j < s2.len() && i != j implies s2[i].proof_bytes@
        != s2[j].proof_bytes@ by {
        if i < n && j < n {
            assert(s2[i] == s[i] && s2[j] == s[j]);
        } else if i == n {
            assert(s2[j] == s[j]);
            if s[j].proof_bytes@ == e.proof_bytes@ {
                assert(has_proof(s, e.proof_bytes@));
            }
        } else {
            assert(s2[i] == s[i]);
            if s[i].proof_bytes@ == e.proof_bytes@ {
                assert(has_proof(s, e.proof_bytes@));
            }
        }
    }
    let m2 = claims_of(s).insert(e.proof_bytes@, (e.owner, e.registered_at));
    assert_maps_equal!(claims_of(s2), m2, k => {
        if k == e.proof_bytes@ {
            lemma_claims_of_at(s2, n);
            assert(claims_of(s2).contains_key(k));
        } else {
            if claims_of(s2).contains_key(k) {
                let i = proof_index(s2, k);
                assert(0 <= i < s2.len() && s2[i].proof_bytes@ == k);
                assert(i < n && s2[i] == s[i]);
                lemma_claims_of_at(s2, i);
                lemma_claims_of_at(s, i);
            }
            if claims_of(s).contains_key(k) {
                let i = proof_index(s, k);
                assert(0 <= i < s.len() && s[i].proof_bytes@ == k);
                assert(s2[i] == s[i]);
                assert(has_proof(s2, k));
            }
        }
    });
}

/// Removing the entry at index `i` removes exactly its claim from the
/// registry map.
proof fn lemma_claims_of_remove(s: Seq<Entry>, i: int)
    requires
        entries_unique(s),
        0 <= i < s.len(),
    ensures
        entries_unique(s.remove(i)),
        claims_of(s.remove(i)) == claims_of(s).remove(s[i].proof_bytes@),
{
    let s2 = s.remove(i);
    assert(s2.len() == s.len() - 1);
    assert forall|j: int| 0 <= j < s2.len() implies s2[j] == (if j < i {
        s[j]
    } else {
        s[j + 1]
    }) by {}
    assert forall|p: int, q: int|
        0 <= p < s2.len() && 0 <= q < s2.len() && p != q implies s2[p].proof_bytes@
        != s2[q].proof_bytes@ by {
        let p0 = if p < i { p } else { p + 1 };
        let q0 = if q < i { q } else { q + 1 };
        assert(s2[p] == s[p0] && s2[q] == s[q0]);
        assert(s[p0].proof_bytes@ != s[q0].proof_bytes@);
    }
    let k0 = s[i].proof_bytes@;
    assert_maps_equal!(claims_of(s2), claims_of(s).remove(k0), k => {
        if claims_of(s2).contains_key(k) {
            let p = proof_index(s2, k);
            assert(0 <= p < s2.len() && s2[p].proof_bytes@ == k);
            let p0 = if p < i { p } else { p + 1 };
            assert(s2[p] == s[p0]);
            assert(p0 != i);
            assert(s[p0].proof_bytes@ != s[i].proof_bytes@);
            lemma_claims_of_at(s2, p);
            lemma_claims_of_at(s, p0);
            assert(has_proof(s, k));
        }
        if claims_of(s).contains_key(k) && k != k0 {
            let p0 = proof_index(s, k);
            assert(0 <= p0 < s.len() && s[p0].proof_bytes@ == k);
            assert(p0 != i);
            let p = if p0 < i { p0 } else { p0 - 1 };
            assert(s2[p] == s[p0]);
            assert(has_proof(s2, k));
        }
    });
}

/// Byte-for-byte equality of two byte vectors.
fn bytes_eq(a: &Vec<u8>, b: &Vec<u8>) -> (r: bool)
    ensures
        r == (a@ == b@),
{
    if a.len() != b.len() {
        return false;
    }
    let mut i: usize = 0;
    while i < a.len()
        invariant
            a.len() == b.len(),
            i <= a.len(),
            forall|j: int| 0 <= j < i ==> a@[j] == b@[j],
        decreases a.len() - i,
    {
        if a[i] != b[i] {
            assert(a@[i as int] != b@[i as int]);
            return false;
        }
        i += 1;
    }
    proof {
        assert(a@ =~= b@);
    }
    true
}

/// A copy of the byte vector `a`.
fn clone_bytes(a: &Vec<u8>) -> (r: Vec<u8>)
    ensures
        r@ == a@,
{
    let mut r: Vec<u8> = Vec::new();
    let mut i: usize = 0;
    while i < a.len()
        invariant
            i <= a.len(),
            r@ == a@.subrange(0, i as int),
        decreases a.len() - i,
    {
        r.push(a[i]);
        proof {
            assert(r@ =~= a@.subrange(0, i as int + 1));
        }
        i += 1;
    }
    proof {
        assert(a@.subrange(0, a@.len() as int) =~= a@);
    }
    r
}

/// The claim registry. It is the sole owner of the proof-to-claim map:
/// entries change only through `create_claim`, `revoke_claim` and
/// `transfer`.
pub struct Pallet {
    config: Config,
    block_number: BlockNumber,
    entries: Vec<Entry>,
}

impl Pallet {
    /// The abstract registry map: proof bytes to (owner, registered_at).
    pub closed spec fn claims(self) -> Map<Seq<u8>, Claim> {
        claims_of(self.entries@)
    }

    /// The block number the registry currently records new claims at.
    pub closed spec fn height(self) -> BlockNumber {
        self.block_number
    }

    /// The configured upper bound on proof length, in bytes.
    pub closed spec fn max_proof_size(self) -> nat {
        self.config.max_proof_size as nat
    }

    /// Well-formedness: at most one entry per proof value, and every stored
    /// proof is within the configured size bound.
    pub closed spec fn wf(self) -> bool {
        &&& entries_unique(self.entries@)
        &&& forall|i: int|
            0 <= i < self.entries@.len() ==> (#[trigger] self.entries@[i]).proof_bytes@.len()
                <= self.config.max_proof_size
    }

    /// An empty registry with the given configuration, at block number zero.
    pub fn new(config: Config) -> (r: Pallet)
        ensures
            r.wf(),
            r.claims() == Map::<Seq<u8>, Claim>::empty(),
            r.height() == 0,
            r.max_proof_size() == config.max_proof_size as nat,
    {
        let r = Pallet { config, block_number: 0, entries: Vec::new() };
        proof {
            assert_maps_equal!(claims_of(r.entries@), Map::<Seq<u8>, Claim>::empty(), k => {});
        }
        r
    }

    /// The index of the entry keyed by `proof_bytes`, if one exists.
    fn find_index(&self, proof_bytes: &Vec<u8>) -> (r: Option<usize>)
        ensures
            match r {
                Some(i) => i < self.entries@.len() && self.entries@[i as int].proof_bytes@
                    == proof_bytes@,
                None => !has_proof(self.entries@, proof_bytes@),
            },
    {
        let mut i: usize = 0;
        while i < self.entries.len()
            invariant
                i <= self.entries@.len(),
                forall|j: int| 0 <= j < i ==> self.entries@[j].proof_bytes@ != proof_bytes@,
            decreases self.entries@.len() - i,
        {
            if bytes_eq(&self.entries[i].proof_bytes, proof_bytes) {
                return Some(i);
            }
            i += 1;
        }
        None
    }

    /// The block number recorded for claims created now.
    pub fn block_number(&self) -> (r: BlockNumber)
        ensures
            r == self.height(),
    {
        self.block_number
    }

    /// Host hook: advance to the block number of the enclosing execution
    /// context. Only the recorded height changes.
    pub fn set_block_number(&mut self, n: BlockNumber)
        ensures
            final(self).height() == n,
            final(self).claims() == old(self).claims(),
            final(self).max_proof_size() == old(self).max_proof_size(),
            old(self).wf() ==> final(self).wf(),
    {
        self.block_number = n;
    }

    /// Whether `proof_bytes` is registered.
    pub fn contains_key(&self, proof_bytes: &Vec<u8>) -> (r: bool)
        ensures
            r == self.claims().contains_key(proof_bytes@),
    {
        self.find_index(proof_bytes).is_some()
    }

    /// The claim registered for `proof_bytes`, if any: its current owner and
    /// the block number recorded at creation.
    pub fn proof_by_id(&self, proof_bytes: &Vec<u8>) -> (r: Option<Claim>)
        requires
            self.wf(),
        ensures
            match r {
                Some(c) => self.claims().contains_key(proof_bytes@)
                    && c == self.claims()[proof_bytes@],
                None => !self.claims().contains_key(proof_bytes@),
            },
    {
        match self.find_index(proof_bytes) {
            Some(i) => {
                proof {
                    lemma_claims_of_at(self.entries@, i as int);
                }
                Some((self.entries[i].owner, self.entries[i].registered_at))
            },
            None => None,
        }
    }

    /// Register `proof_bytes` for `caller` at the current block number.
    /// Fails with `ProofAlreadyClaimed` on an existing proof (checked
    /// first), with `ProofOutOfMaxSize` on an over-long one; a failed call
    /// changes nothing.
    pub fn create_claim(&mut self, caller: AccountId, proof_bytes: Vec<u8>) -> (r: Result<
        Event,
        Error,
    >)
        requires
            old(self).wf(),
        ensures
            final(self).wf(),
            final(self).height() == old(self).height(),
            final(self).max_proof_size() == old(self).max_proof_size(),
            match create_outcome(
                old(self).claims(),
                caller,
                proof_bytes@,
                old(self).height(),
                old(self).max_proof_size(),
            ) {
                Ok(m) => {
                    &&& r matches Ok(ev) && ev@ == EventView::ClaimCreated(caller, proof_bytes@)
                    &&& final(self).claims() == m
                },
                Err(e) => {
                    &&& r matches Err(e2) && e2 == e
                    &&& final(self).claims() == old(self).claims()
                },
            },
    {
        match self.find_index(&proof_bytes) {
            Some(i) => {
                proof {
                    lemma_claims_of_at(self.entries@, i as int);
                }
                Err(Error::ProofAlreadyClaimed)
            },
            None => {
                if proof_bytes.len() > self.config.max_proof_size as usize {
                    Err(Error::ProofOutOfMaxSize)
                } else {
                    let event_bytes = clone_bytes(&proof_bytes);
                    let ghost s0 = self.entries@;
                    let entry = Entry {
                        proof_bytes,
                        owner: caller,
                        registered_at: self.block_number,
                    };
                    proof {
                        lemma_claims_of_push(s0, entry);
                    }
                    self.entries.push(entry);
                    Ok(Event::ClaimCreated(caller, event_bytes))
                }
            },
        }
    }

    /// Remove the claim for `proof_bytes`. Fails with `NoSuchProof` on an
    /// absent proof, with `NotProofOfOwner` when `caller` is not the
    /// recorded owner; a failed call changes nothing.
    pub fn revoke_claim(&mut self, caller: AccountId, proof_bytes: Vec<u8>) -> (r: Result<
        Event,
        Error,
    >)
        requires
            old(self).wf(),
        ensures
            final(self).wf(),
            final(self).height() == old(self).height(),
            final(self).max_proof_size() == old(self).max_proof_size(),
            match revoke_outcome(old(self).claims(), caller, proof_bytes@) {
                Ok(m) => {
                    &&& r matches Ok(ev) && ev@ == EventView::ClaimRevoked(caller, proof_bytes@)
                    &&& final(self).claims() == m
                },
                Err(e) => {
                    &&& r matches Err(e2) && e2 == e
                    &&& final(self).claims() == old(self).claims()
                },
            },
    {
        match self.find_index(&proof_bytes) {
            None => Err(Error::NoSuchProof),
            Some(i) => {
                proof {
                    lemma_claims_of_at(self.entries@, i as int);
                }
                if self.entries[i].owner != caller {
                    Err(Error::NotProofOfOwner)
                } else {
                    proof {
                        lemma_claims_of_remove(self.entries@, i as int);
                    }
                    let _removed = self.entries.remove(i);
                    Ok(Event::ClaimRevoked(caller, proof_bytes))
                }
            },
        }
    }

    /// Reassign the claim for `proof_bytes` from `caller` to `receiver`,
    /// keeping the recorded registration height. The receiver is not
    /// validated; a transfer to oneself succeeds. Fails with `NoSuchProof`
    /// on an absent proof, with `NotProofOfOwner` when `caller` is not the
    /// recorded owner; a failed call changes nothing.
    pub fn transfer(&mut self, caller: AccountId, proof_bytes: Vec<u8>, receiver: AccountId) -> (r:
        Result<Event, Error>)
        requires
            old(self).wf(),
        ensures
            final(self).wf(),
            final(self).height() == old(self).height(),
            final(self).max_proof_size() == old(self).max_proof_size(),
            match transfer_outcome(old(self).claims(), caller, proof_bytes@, receiver) {
                Ok(m) => {
                    &&& r matches Ok(ev) && ev@ == EventView::ClaimTransfered(
                        caller,
                        receiver,
                        proof_bytes@,
                    )
                    &&& final(self).claims() == m
                },
                Err(e) => {
                    &&& r matches Err(e2) && e2 == e
                    &&& final(self).claims() == old(self).claims()
                },
            },
    {
        match self.find_index(&proof_bytes) {
            None => Err(Error::NoSuchProof),
            Some(i) => {
                proof {
                    lemma_claims_of_at(self.entries@, i as int);
                }
                if self.entries[i].owner != caller {
                    Err(Error::NotProofOfOwner)
                } else {
                    proof {
                        lemma_claims_of_remove(self.entries@, i as int);
                    }
                    let ghost m0 = self.claims();
                    let ghost k = proof_bytes@;
                    let removed = self.entries.remove(i);
                    let entry = Entry {
                        proof_bytes: removed.proof_bytes,
                        owner: receiver,
                        registered_at: removed.registered_at,
                    };
                    proof {
                        lemma_claims_of_push(self.entries@, entry);
                        assert_maps_equal!(
                            m0.remove(k).insert(k, (receiver, m0[k].1)),
                            m0.insert(k, (receiver, m0[k].1)),
                            k2 => {}
                        );
                    }
                    self.entries.push(entry);
                    Ok(Event::ClaimTransfered(caller, receiver, proof_bytes))
                }
            },
        }
    }
}

} // verus!

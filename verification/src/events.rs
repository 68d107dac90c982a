use crate::types::AccountId;
use vstd::prelude::*;

verus! {

/// A domain event, returned by an operation exactly when it succeeds. A
/// failed call emits no event.
#[derive(Clone, Debug, PartialEq, Eq)]
pub enum Event {
    /// A claim was registered: the owner and the proof bytes.
    ClaimCreated(AccountId, Vec<u8>),
    /// A claim was removed by its owner: the owner and the proof bytes.
    ClaimRevoked(AccountId, Vec<u8>),
    /// A claim changed owner: the previous owner, the new owner and the
    /// proof bytes.
    ClaimTransfered(AccountId, AccountId, Vec<u8>),
}

/// The mathematical shape of an `Event`, with the proof bytes abstracted to
/// a sequence. Contracts speak of events through this view.
pub enum EventView {
    ClaimCreated(AccountId, Seq<u8>),
    ClaimRevoked(AccountId, Seq<u8>),
    ClaimTransfered(AccountId, AccountId, Seq<u8>),
}

impl View for Event {
    type V = EventView;

    open spec fn view(&self) -> EventView {
        match self {
            Event::ClaimCreated(owner, bytes) => EventView::ClaimCreated(*owner, bytes@),
            Event::ClaimRevoked(owner, bytes) => EventView::ClaimRevoked(*owner, bytes@),
            Event::ClaimTransfered(from, to, bytes) => EventView::ClaimTransfered(
                *from,
                *to,
                bytes@,
            ),
        }
    }
}

} // verus!

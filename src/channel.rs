//! The side channel through which a failing guest hands its diagnostic to
//! the host: a slot that holds at most one record.
use vstd::prelude::*;
use crate::panic_info::PanicInfo;

verus! {

/// The slot after `set(x)`: the last write wins.
pub open spec fn slot_after_set(slot: Option<PanicInfo>, x: PanicInfo) -> Option<PanicInfo> {
    Some(x)
}

/// What `take` returns from a slot.
pub open spec fn taken(slot: Option<PanicInfo>) -> Option<PanicInfo> {
    slot
}

/// The slot after `take` or `clear`.
pub open spec fn slot_after_take(slot: Option<PanicInfo>) -> Option<PanicInfo> {
    None
}

/// Zero or one pending diagnostic record, never a queue.
#[derive(Debug)]
pub struct PanicChannel {
    slot: Option<PanicInfo>,
}

impl View for PanicChannel {
    type V = Option<PanicInfo>;

    closed spec fn view(&self) -> Option<PanicInfo> {
        self.slot
    }
}

impl PanicChannel {
    /// An empty channel.
    pub fn new() -> (r: Self)
        ensures
            r@ is None,
    {
        PanicChannel { slot: None }
    }

    /// Stores `info`, replacing any record still pending.
    pub fn set(&mut self, info: PanicInfo)
        ensures
            final(self)@ == slot_after_set(old(self)@, info),
    {
        self.slot = Some(info);
    }

    /// Removes and returns the pending record, if there is one.
    pub fn take(&mut self) -> (r: Option<PanicInfo>)
        ensures
            r == taken(old(self)@),
            final(self)@ == slot_after_take(old(self)@),
    {
        self.slot.take()
    }

    /// Drops any pending record.
    pub fn clear(&mut self)
        ensures
            final(self)@ == slot_after_take(old(self)@),
    {
        self.slot = None;
    }

    /// Whether a record is pending.
    pub fn is_empty(&self) -> (r: bool)
        ensures
            r == (self@ is None),
    {
        self.slot.is_none()
    }
}

/// After `set(x)`, a `take` returns `x`; a second `take` with no `set` in
/// between returns nothing.
pub proof fn lemma_take_after_set_once(slot: Option<PanicInfo>, x: PanicInfo)
    ensures
        taken(slot_after_set(slot, x)) == Some(x),
        taken(slot_after_take(slot_after_set(slot, x))) is None,
{
}

/// Clearing the channel and then taking from it, with no record written in
/// between, returns nothing, whatever was pending before.
pub proof fn lemma_take_after_clear(slot: Option<PanicInfo>)
    ensures
        taken(slot_after_take(slot)) is None,
{
}

} // verus!

//! The counter that host callbacks share.
use vstd::prelude::*;

verus! {

/// The counter's value after one `increment`.
pub open spec fn incremented(v: nat) -> nat {
    v + 1
}

/// The counter's value after `n` increments of a new counter.
pub open spec fn after_increments(n: nat) -> nat
    decreases n,
{
    if n == 0 {
        0
    } else {
        incremented(after_increments((n - 1) as nat))
    }
}

/// A counter of host-side events. Callers that share it across callbacks
/// hold it behind a lock; `increment` takes it by exclusive reference, so
/// every update is serialized.
#[derive(Debug)]
pub struct SharedCounter {
    value: usize,
}

impl View for SharedCounter {
    type V = nat;

    closed spec fn view(&self) -> nat {
        self.value as nat
    }
}

impl SharedCounter {
    /// A counter at zero.
    pub fn new() -> (r: Self)
        ensures
            r@ == 0,
    {
        SharedCounter { value: 0 }
    }

    /// Adds one.
    pub fn increment(&mut self)
        requires
            old(self)@ < usize::MAX,
        ensures
            final(self)@ == incremented(old(self)@),
    {
        self.value = self.value + 1;
    }

    /// The current value.
    pub fn read(&self) -> (r: usize)
        ensures
            r as nat == self@,
    {
        self.value
    }
}

/// `n` increments of a new counter, in whatever order their callers were
/// serialized, leave it at `n`: no update is lost.
pub proof fn lemma_increments_add_up(n: nat)
    ensures
        after_increments(n) == n,
    decreases n,
{
    if n > 0 {
        lemma_increments_add_up((n - 1) as nat);
    }
}

} // verus!

//! Single-slot, latest-wins frame mailbox.
//!
//! The capture callback publishes each decoded frame into the slot,
//! overwriting any frame the render tick has not taken yet; the tick takes the
//! slot's content without blocking. The slot itself is sequential — the caller
//! that shares it between the capture thread and the tick loop wraps it in a
//! lock and keeps the critical section to the publish or take alone.

use vstd::prelude::*;

verus! {

/// A one-frame mailbox with drop-oldest backpressure.
pub struct FrameSlot<T> {
    pub latest: Option<T>,
}

/// The slot content after a sequence of publishes, oldest first.
pub open spec fn slot_after_writes<T>(init: Option<T>, writes: Seq<T>) -> Option<T>
    decreases writes.len(),
{
    if writes.len() == 0 {
        init
    } else {
        slot_after_writes(Some(writes.first()), writes.drop_first())
    }
}

impl<T> FrameSlot<T> {
    /// An empty slot.
    pub fn new() -> (s: Self)
        ensures
            s.latest is None,
    {
        FrameSlot { latest: None }
    }

    /// Deposit the newest frame, discarding an undelivered previous one.
    pub fn publish(&mut self, frame: T)
        ensures
            final(self).latest == Some(frame),
            final(self).latest == slot_after_writes(old(self).latest, seq![frame]),
    {
        proof {
            let w = seq![frame];
            assert(w.drop_first() =~= Seq::<T>::empty());
            assert(slot_after_writes(Some(frame), Seq::<T>::empty()) == Some(frame));
        }
        self.latest = Some(frame);
    }

    /// Remove and return the current frame, if any; never blocks.
    pub fn take(&mut self) -> (r: Option<T>)
        ensures
            r == old(self).latest,
            final(self).latest is None,
    {
        self.latest.take()
    }

    /// Whether a frame is waiting.
    pub fn is_occupied(&self) -> (b: bool)
        ensures
            b == (self.latest is Some),
    {
        self.latest.is_some()
    }
}

/// Latest wins: after any non-empty sequence of publishes, the slot holds
/// exactly the last written frame, whatever it held before; one take then
/// yields that frame and leaves the slot empty, so every intermediate frame
/// is unobservable.
pub proof fn lemma_last_write_wins<T>(init: Option<T>, writes: Seq<T>)
    requires
        writes.len() > 0,
    ensures
        slot_after_writes(init, writes) == Some(writes.last()),
    decreases writes.len(),
{
    if writes.len() == 1 {
        assert(slot_after_writes(init, writes) == Some(writes.first()));
    } else {
        lemma_last_write_wins(Some(writes.first()), writes.drop_first());
        assert(writes.drop_first().last() == writes.last());
    }
}

} // verus!

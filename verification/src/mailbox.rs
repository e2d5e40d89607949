//! Single-slot latest-wins mailbox.

use vstd::prelude::*;

verus! {

/// The slot after `value` is published into it: the value, whatever the
/// slot held before.
pub open spec fn published<T>(slot: Option<T>, value: T) -> Option<T> {
    Some(value)
}

/// What a take hands back, and the slot it leaves: everything it held, and
/// nothing.
pub open spec fn taken<T>(slot: Option<T>) -> (Option<T>, Option<T>) {
    (slot, None)
}

/// A one-slot handoff between a producer and a consumer.
///
/// Publishing over an unconsumed value discards it, so the slot always holds
/// the newest value and never grows. Consumption is destructive: once taken,
/// the slot is empty until the next publish.
pub struct Mailbox<T> {
    slot: Option<T>,
}

impl<T> View for Mailbox<T> {
    type V = Option<T>;

    closed spec fn view(&self) -> Option<T> {
        self.slot
    }
}

impl<T> Mailbox<T> {
    /// Create an empty mailbox.
    pub fn new() -> (mailbox: Self)
        ensures
            mailbox@ is None,
    {
        Mailbox { slot: None }
    }

    /// Put `value` in the slot, dropping whatever was there.
    pub fn publish(&mut self, value: T)
        ensures
            final(self)@ == published(old(self)@, value),
    {
        self.slot = Some(value);
    }

    /// Empty the slot, returning its value if one was published since the
    /// last take.
    pub fn take(&mut self) -> (value: Option<T>)
        ensures
            (value, final(self)@) == taken(old(self)@),
    {
        self.slot.take()
    }
}

impl<T> Default for Mailbox<T> {
    fn default() -> (mailbox: Self)
        ensures
            mailbox@ is None,
    {
        Mailbox::new()
    }
}

/// The latest value wins, and is consumed once: whatever the slot held, a
/// take after two publishes hands back the second, and a take after that
/// hands back nothing.
pub proof fn law_latest_publish_is_taken_once<T>(slot: Option<T>, first: T, second: T)
    ensures
        taken(published(published(slot, first), second)).0 == Some(second),
        taken(taken(published(published(slot, first), second)).1).0 is None,
{
}

} // verus!

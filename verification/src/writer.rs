//! The bytes bound for the child, and the cap on how many may wait.
//!
//! One queue, whoever queued into it: what the app wrote and what the
//! terminal answered. A write that does not fit is refused whole, and an
//! answer that does not fit is remembered as an overrun and reported once.

use vstd::prelude::*;

use crate::Error;

verus! {

/// How many bytes may wait for the child before further writes are dropped.
pub const CAP: usize = 8 * 1024 * 1024;

/// Bytes on their way to the child.
pub struct WriteQueue {
    bytes: Vec<u8>,
    /// Whether bytes were dropped for want of room since this was last asked.
    overran: bool,
}

impl WriteQueue {
    /// Well-formed: no more is queued than the cap allows.
    pub closed spec fn wf(&self) -> bool {
        self.bytes.len() <= CAP
    }

    /// The bytes waiting, oldest first.
    pub closed spec fn queued(&self) -> Seq<u8> {
        self.bytes@
    }

    /// A well-formed queue holds no more than the cap. Every call on a queue
    /// keeps it well-formed, so whatever sequence of calls reached it, it is
    /// within the cap between them.
    pub proof fn law_queue_stays_within_its_cap(&self)
        requires
            self.wf(),
        ensures
            self.queued().len() <= CAP,
    {
    }

    /// Whether an answer has been dropped since the overrun was last taken.
    pub closed spec fn has_overrun(&self) -> bool {
        self.overran
    }

    /// Whether `more` fits behind what is already queued.
    pub open spec fn fits(&self, more: Seq<u8>) -> bool {
        self.queued().len() + more.len() <= CAP
    }

    /// An empty queue with nothing dropped.
    pub fn new() -> (queue: Self)
        ensures
            queue.wf(),
            queue.queued() == Seq::<u8>::empty(),
            !queue.has_overrun(),
    {
        WriteQueue { bytes: Vec::new(), overran: false }
    }

    /// Append `bytes`, or report that there was no room for them.
    ///
    /// Nothing is queued when they do not fit: a prefix of what the user
    /// typed reaching the child is worse than none of it.
    pub fn try_push(&mut self, bytes: &[u8]) -> (fitted: bool)
        requires
            old(self).wf(),
        ensures
            final(self).wf(),
            fitted == old(self).fits(bytes@),
            final(self).queued() == pushed(old(self).queued(), bytes@),
            final(self).has_overrun() == old(self).has_overrun(),
    {
        self.append(bytes)
    }

    /// The same for what the terminal answers, which has no caller standing
    /// by to be told: the drop is remembered instead.
    pub fn push(&mut self, bytes: &[u8])
        requires
            old(self).wf(),
        ensures
            final(self).wf(),
            final(self).queued() == pushed(old(self).queued(), bytes@),
            final(self).has_overrun() == (old(self).has_overrun() || !old(self).fits(bytes@)),
    {
        if !self.append(bytes) {
            self.overran = true;
        }
    }

    /// Put `bytes` on the end of the queue, or answer that they did not fit.
    fn append(&mut self, bytes: &[u8]) -> (fitted: bool)
        requires
            old(self).wf(),
        ensures
            final(self).wf(),
            fitted == old(self).fits(bytes@),
            fitted ==> final(self).queued() == old(self).queued() + bytes@,
            !fitted ==> final(self).queued() == old(self).queued(),
            final(self).has_overrun() == old(self).has_overrun(),
    {
        if bytes.len() > CAP - self.bytes.len() {
            return false;
        }
        self.bytes.extend_from_slice(bytes);
        true
    }

    /// Whether bytes have been dropped since this was last asked.
    ///
    /// Asking clears it, so one overrun is reported once rather than held
    /// against every later call.
    pub fn take_overrun(&mut self) -> (overran: bool)
        requires
            old(self).wf(),
        ensures
            final(self).wf(),
            overran == old(self).has_overrun(),
            !final(self).has_overrun(),
            final(self).queued() == old(self).queued(),
    {
        let overran = self.overran;
        self.overran = false;
        overran
    }

    /// How many bytes are still waiting for the child.
    pub fn waiting(&self) -> (count: usize)
        ensures
            count == self.queued().len(),
    {
        self.bytes.len()
    }

    /// Hand what is queued to `take_some`, and drop as much of it as was
    /// taken.
    ///
    /// The bytes are lent rather than copied out, so what is queued after a
    /// hand-over lands behind what was left of it.
    ///
    /// # Errors
    ///
    /// Whatever `take_some` reports, in which case nothing was dropped.
    pub fn drain_with<F>(&mut self, take_some: F) -> (drained: Result<(), Error>)
        where
            F: FnOnce(&[u8]) -> Result<usize, Error>,
        requires
            old(self).wf(),
            forall|lent: &[u8]| lent@ == old(self).queued() ==> #[trigger] call_requires(take_some, (lent,)),
            forall|lent: &[u8], taken: Result<usize, Error>|
                lent@ == old(self).queued() && call_ensures(take_some, (lent,), taken) ==> (taken matches Ok(
                    n,
                ) ==> n <= lent@.len()),
        ensures
            final(self).wf(),
            old(self).queued().len() == 0 ==> drained is Ok && final(self).queued() == old(self).queued(),
            old(self).queued().len() > 0 ==> exists|lent: &[u8], taken: Result<usize, Error>| {
                &&& lent@ == old(self).queued()
                &&& call_ensures(take_some, (lent,), taken)
                &&& match taken {
                    Ok(n) => drained is Ok && final(self).queued() == old(self).queued().subrange(n as int, old(self).queued().len() as int),
                    Err(e) => drained == Err::<(), Error>(e) && final(self).queued() == old(self).queued(),
                }
            },
            final(self).has_overrun() == old(self).has_overrun(),
    {
        if self.bytes.len() == 0 {
            return Ok(());
        }
        let taken = take_some(self.bytes.as_slice());
        match taken {
            Ok(n) => {
                let rest = self.bytes.split_off(n);
                self.bytes = rest;
                Ok(())
            },
            Err(e) => Err(e),
        }
    }

    /// Take everything queued, emptying the queue.
    pub fn take(&mut self) -> (taken: Vec<u8>)
        requires
            old(self).wf(),
        ensures
            final(self).wf(),
            taken@ == old(self).queued(),
            final(self).queued() == Seq::<u8>::empty(),
            final(self).has_overrun() == old(self).has_overrun(),
    {
        let mut taken = Vec::new();
        core::mem::swap(&mut taken, &mut self.bytes);
        taken
    }
}

impl Default for WriteQueue {
    fn default() -> (queue: Self)
        ensures
            queue.wf(),
            queue.queued() == Seq::<u8>::empty(),
            !queue.has_overrun(),
    {
        WriteQueue::new()
    }
}

} // verus!

verus! {

/// The queue a push leaves: `bytes` behind what was queued when they fit,
/// and what was queued, untouched, when they do not.
pub open spec fn pushed(queued: Seq<u8>, bytes: Seq<u8>) -> Seq<u8> {
    if queued.len() + bytes.len() <= CAP {
        queued + bytes
    } else {
        queued
    }
}

/// The cap holds against anything pushed: no sequence of pushes takes a
/// queue past it.
pub proof fn law_queue_never_passes_its_cap(queued: Seq<u8>, bytes: Seq<u8>)
    requires
        queued.len() <= CAP,
    ensures
        pushed(queued, bytes).len() <= CAP,
{
}

/// A write that does not fit is refused whole: nothing of it is queued, not
/// even the part there was room for.
pub proof fn law_refused_write_queues_nothing(queued: Seq<u8>, bytes: Seq<u8>)
    requires
        queued.len() + bytes.len() > CAP,
    ensures
        pushed(queued, bytes) == queued,
{
}

/// What a hand-over left behind stays in front of what is queued after it,
/// in the order it was queued in.
pub proof fn law_leftover_stays_in_front(queued: Seq<u8>, taken: nat, bytes: Seq<u8>)
    requires
        taken <= queued.len(),
        queued.len() - taken + bytes.len() <= CAP,
    ensures
        pushed(queued.subrange(taken as int, queued.len() as int), bytes) == queued.subrange(
            taken as int,
            queued.len() as int,
        ) + bytes,
        pushed(queued.subrange(taken as int, queued.len() as int), bytes).subrange(
            0,
            queued.len() - taken,
        ) == queued.subrange(taken as int, queued.len() as int),
{
    let left = queued.subrange(taken as int, queued.len() as int);
    assert((left + bytes).subrange(0, left.len() as int) =~= left);
}

} // verus!

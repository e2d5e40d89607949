//! The finite event queue and what goes in it.

use vstd::prelude::*;

verus! {

/// Which clipboard a write is bound for.
#[derive(Clone, Copy, Debug, PartialEq, Eq, Structural)]
pub enum ClipboardTarget {
    /// The system clipboard.
    Standard,
    /// The selection clipboard.
    Selection,
    /// The primary selection.
    Primary,
}

/// Something the child did whose happening is the whole of its meaning.
#[derive(Clone, Debug, PartialEq, Eq)]
pub enum Event {
    /// The child rang the bell.
    Bell,
    /// The child asked for text to be put on a clipboard.
    ClipboardWrite {
        /// Which clipboard it is bound for.
        target: ClipboardTarget,
        /// What to put there.
        text: String,
    },
    /// The child is gone, with what it ended by — or 128 plus the signal that
    /// ended it.
    ChildExited {
        /// The exit code.
        code: i32,
    },
}

/// How many events may wait to be taken before further ones are dropped.
pub const EVENT_QUEUE_CAP: usize = 64;

/// What a push leaves: the event queued behind the others while there is
/// room, and otherwise counted as dropped, the count saturating.
pub open spec fn pushed(queued: Seq<Event>, dropped: u64, event: Event) -> (Seq<Event>, u64) {
    if queued.len() < EVENT_QUEUE_CAP {
        (queued.push(event), dropped)
    } else if dropped == u64::MAX {
        (queued, dropped)
    } else {
        (queued, (dropped + 1) as u64)
    }
}

/// Events waiting for the app, and a count of the ones that did not fit.
pub struct EventQueue {
    events: Vec<Event>,
    dropped: u64,
    /// Whether anything was pushed since the arrival was last taken.
    arrived: bool,
}

impl EventQueue {
    /// Well-formed: no more is queued than the cap allows.
    pub closed spec fn wf(&self) -> bool {
        self.events.len() <= EVENT_QUEUE_CAP
    }

    /// The events waiting, oldest first.
    pub closed spec fn queued(&self) -> Seq<Event> {
        self.events@
    }

    /// A well-formed queue holds no more events than the cap. Every call on a
    /// queue keeps it well-formed, so whatever sequence of calls reached it,
    /// it is within the cap between them.
    pub proof fn law_queue_stays_within_its_cap(&self)
        requires
            self.wf(),
        ensures
            self.queued().len() <= EVENT_QUEUE_CAP,
    {
    }

    /// How many events were dropped since the last take.
    pub closed spec fn dropped(&self) -> u64 {
        self.dropped
    }

    /// Whether an event arrived since the arrival was last taken.
    pub closed spec fn has_arrival(&self) -> bool {
        self.arrived
    }

    /// An empty queue.
    pub fn new() -> (queue: Self)
        ensures
            queue.wf(),
            queue.queued() == Seq::<Event>::empty(),
            queue.dropped() == 0,
            !queue.has_arrival(),
    {
        EventQueue { events: Vec::new(), dropped: 0, arrived: false }
    }

    /// Queue `event`, or count it dropped when the queue is at its cap.
    pub fn push(&mut self, event: Event)
        requires
            old(self).wf(),
        ensures
            final(self).wf(),
            (final(self).queued(), final(self).dropped()) == pushed(
                old(self).queued(),
                old(self).dropped(),
                event,
            ),
            final(self).has_arrival(),
    {
        self.arrived = true;
        if self.events.len() >= EVENT_QUEUE_CAP {
            self.dropped = self.dropped.saturating_add(1);
            return;
        }
        self.events.push(event);
    }

    /// Take everything queued, oldest first, along with how many events were
    /// dropped since the last take.
    ///
    /// The count empties with the queue, so one overrun is reported once.
    pub fn take(&mut self) -> (taken: (Vec<Event>, u64))
        requires
            old(self).wf(),
        ensures
            final(self).wf(),
            taken.0@ == old(self).queued(),
            taken.1 == old(self).dropped(),
            final(self).queued() == Seq::<Event>::empty(),
            final(self).dropped() == 0,
            final(self).has_arrival() == old(self).has_arrival(),
    {
        let mut events = Vec::new();
        core::mem::swap(&mut events, &mut self.events);
        let dropped = self.dropped;
        self.dropped = 0;
        (events, dropped)
    }

    /// Whether anything was pushed since this was last asked, clearing it.
    pub fn take_arrival(&mut self) -> (arrived: bool)
        requires
            old(self).wf(),
        ensures
            final(self).wf(),
            arrived == old(self).has_arrival(),
            !final(self).has_arrival(),
            final(self).queued() == old(self).queued(),
            final(self).dropped() == old(self).dropped(),
    {
        let arrived = self.arrived;
        self.arrived = false;
        arrived
    }
}

impl Default for EventQueue {
    fn default() -> (queue: Self)
        ensures
            queue.wf(),
            queue.queued() == Seq::<Event>::empty(),
            queue.dropped() == 0,
            !queue.has_arrival(),
    {
        EventQueue::new()
    }
}

/// Every event pushed is accounted for: it is queued behind what was already
/// there, or counted as dropped, and never both; nothing already queued moves,
/// and the queue never holds more than its cap.
pub proof fn law_every_pushed_event_is_queued_or_counted(queued: Seq<Event>, dropped: u64, event: Event)
    requires
        queued.len() <= EVENT_QUEUE_CAP,
        dropped < u64::MAX,
    ensures
        pushed(queued, dropped, event).0.len() + pushed(queued, dropped, event).1
            == queued.len() + dropped + 1,
        pushed(queued, dropped, event).0.len() <= EVENT_QUEUE_CAP,
        pushed(queued, dropped, event).0.subrange(0, queued.len() as int) == queued,
{
    assert(queued.push(event).subrange(0, queued.len() as int) =~= queued);
    assert(queued.subrange(0, queued.len() as int) =~= queued);
}

} // verus!

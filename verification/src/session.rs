//! Session state and the publish path.
//!
//! The VT engine is driven by whoever holds the terminal; what it answers —
//! a captured frame or none, whether a synchronized output block is open —
//! and the clock are handed in here as plain values. Everything decided from
//! them is this module's: what the mailbox holds, what the consumer is owed,
//! and when that is paid.

use vstd::prelude::*;

use crate::listener::{sanitized, ClipboardRefusal, Listener, Representation};
use crate::mailbox::Mailbox;
use crate::queue::{pushed, ClipboardTarget, Event, EventQueue};
use crate::snapshot::{absorbed_rows, consistent, dirty_max, screen_view, Cursor, ScreenState, Snapshot};
use crate::sync::{gate_step, open_gate, wait_step, Release, SyncGate};
use crate::wake::{callable, paid_out, registered, Debt};
use crate::writer::WriteQueue;
use crate::Error;

verus! {

/// A selection's two endpoints, in viewport coordinates.
///
/// Both ends are inclusive, and either may come first.
#[derive(Clone, Copy, Debug, PartialEq, Eq, Structural)]
pub struct SelectionRange {
    /// Column of the first endpoint.
    pub start_x: u16,
    /// Row of the first endpoint.
    pub start_y: u16,
    /// Column of the second endpoint.
    pub end_x: u16,
    /// Row of the second endpoint.
    pub end_y: u16,
    /// Whether the endpoints are opposite corners of a block.
    pub rectangle: bool,
}

/// What a selection gesture measures in.
#[derive(Clone, Copy, Debug, PartialEq, Eq, Structural)]
pub enum SelectionUnit {
    /// Cell by cell.
    Cell,
    /// Word by word.
    Word,
    /// Line by line.
    Line,
}

/// What has become of a session's child.
#[derive(Clone, Copy, Debug, PartialEq, Eq, Structural)]
pub enum ChildState {
    /// There is no child: a detached session is fed by its caller.
    NoChild,
    /// Still running.
    Running,
    /// Gone, with what it ended by — or 128 plus the signal that ended it.
    Exited(i32),
}

/// What a published frame is, given the frame captured and the one it
/// replaces in the mailbox: the captured one, carrying the change marks of
/// the one it replaces.
pub open spec fn publishes(published: Snapshot, captured: Snapshot, replaced: Option<Snapshot>) -> bool {
    &&& published.cols == captured.cols
    &&& published.rows == captured.rows
    &&& published.has_selection == captured.has_selection
    &&& published.screen == captured.screen
    &&& published.cells == captured.cells
    &&& published.graphemes == captured.graphemes
    &&& match replaced {
        None => published.dirty == captured.dirty && published.row_state@
            == captured.row_state@,
        Some(dropped) => published.dirty == dirty_max(captured.dirty, dropped.dirty)
            && published.row_state@ == absorbed_rows(captured.row_state@, dropped.row_state@),
    }
}

/// A terminal session, without the engine it is driven by.
///
/// `W` is what the consumer registers to be woken by.
pub struct Session<W: Fn()> {
    mailbox: Mailbox<Snapshot>,
    /// What the last capture said about the screen outside the grid.
    last_screen: ScreenState,
    listener: Listener,
    /// What the last drain handed out.
    drained: Vec<u8>,
    wake: Debt<W>,
    gate: SyncGate,
}

impl<W: Fn()> Session<W> {
    /// Well-formed: every part is.
    pub closed spec fn wf(&self) -> bool {
        &&& self.listener.wf()
        &&& self.wake.wf()
        &&& self.gate.wf()
        &&& self.mailbox@ matches Some(frame) ==> consistent(frame)
    }

    /// The frame waiting to be taken, if any.
    pub closed spec fn pending(&self) -> Option<Snapshot> {
        self.mailbox@
    }

    /// The screen state of the last capture.
    pub closed spec fn last_screen_view(&self) -> (Cursor, Seq<char>, Seq<char>) {
        screen_view(self.last_screen)
    }

    /// The bytes queued for the child.
    pub closed spec fn writes(&self) -> WriteQueue {
        self.listener.writes()
    }

    /// The events queued for the app.
    pub closed spec fn events(&self) -> EventQueue {
        self.listener.events()
    }

    /// What the consumer is owed and has been paid.
    pub closed spec fn debt(&self) -> Debt<W> {
        self.wake
    }

    /// Where the synchronized output hold stands.
    pub closed spec fn gate(&self) -> SyncGate {
        self.gate
    }

    /// Create a session with empty queues and nothing published.
    pub fn new() -> (session: Self)
        ensures
            session.wf(),
            session.pending() is None,
            session.writes().queued() == Seq::<u8>::empty(),
            !session.writes().has_overrun(),
            session.events().queued() == Seq::<Event>::empty(),
            session.events().dropped() == 0,
            !session.events().has_arrival(),
            !session.debt().owed(),
            !session.debt().listening(),
            session.debt().payments() == 0,
            session.gate() == open_gate(),
    {
        let listener = Listener::new(WriteQueue::new(), EventQueue::new());
        Session {
            mailbox: Mailbox::new(),
            last_screen: ScreenState {
                cursor: Cursor { x: 0, y: 0, visible: false, shape: crate::snapshot::CursorShape::Block },
                title: String::new(),
                pwd: String::new(),
            },
            listener,
            drained: Vec::new(),
            wake: Debt::new(),
            gate: SyncGate::new(),
        }
    }

    /// The screen state of the last capture, which the next capture is
    /// compared against.
    pub fn last_screen(&self) -> (screen: &ScreenState)
        ensures
            screen_view(*screen) == self.last_screen_view(),
    {
        &self.last_screen
    }

    /// Set what to call when the session has something new to be taken, or
    /// clear it with `None`.
    ///
    /// A wake that fell due while nobody was registered is paid here. One a
    /// synchronized output block is holding back has not fallen due yet.
    pub fn set_wake(&mut self, wake: Option<W>)
        requires
            old(self).wf(),
            callable(wake),
        ensures
            final(self).wf(),
            registered(old(self).debt(), final(self).debt(), wake is Some),
            final(self).debt().wake() == wake,
            final(self).gate() == old(self).gate(),
            final(self).pending() == old(self).pending(),
            final(self).writes() == old(self).writes(),
            final(self).events() == old(self).events(),
    {
        self.wake.register(wake);
    }

    /// Queue `bytes` for the child, without waiting for them to get there.
    ///
    /// # Errors
    ///
    /// [`Error::WriteQueueFull`] when they did not fit, in which case none of
    /// them were queued.
    pub fn write(&mut self, bytes: &[u8]) -> (written: Result<(), Error>)
        requires
            old(self).wf(),
        ensures
            final(self).wf(),
            written is Ok == old(self).writes().fits(bytes@),
            written is Err ==> written == Err::<(), Error>(Error::WriteQueueFull),
            written is Ok ==> final(self).writes().queued() == old(self).writes().queued() + bytes@,
            written is Err ==> final(self).writes().queued() == old(self).writes().queued(),
            final(self).writes().has_overrun() == old(self).writes().has_overrun(),
            final(self).events() == old(self).events(),
            final(self).debt() == old(self).debt(),
            final(self).gate() == old(self).gate(),
            final(self).pending() == old(self).pending(),
    {
        if self.listener.try_write(bytes) {
            return Ok(());
        }
        Err(Error::WriteQueueFull)
    }

    /// The terminal wants `bytes` sent to the child.
    pub fn pty_write(&mut self, bytes: &[u8])
        requires
            old(self).wf(),
        ensures
            final(self).wf(),
            old(self).writes().fits(sanitized(bytes@)) ==> final(self).writes().queued()
                == old(self).writes().queued() + sanitized(bytes@),
            !old(self).writes().fits(sanitized(bytes@)) ==> final(self).writes().queued()
                == old(self).writes().queued(),
            final(self).writes().has_overrun() == (old(self).writes().has_overrun()
                || !old(self).writes().fits(sanitized(bytes@))),
            final(self).events() == old(self).events(),
            final(self).debt() == old(self).debt(),
            final(self).gate() == old(self).gate(),
            final(self).pending() == old(self).pending(),
    {
        self.listener.pty_write(bytes);
    }

    /// The child rang the bell.
    pub fn bell(&mut self)
        requires
            old(self).wf(),
        ensures
            final(self).wf(),
            (final(self).events().queued(), final(self).events().dropped()) == pushed(
                old(self).events().queued(),
                old(self).events().dropped(),
                Event::Bell,
            ),
            final(self).events().has_arrival(),
            final(self).writes() == old(self).writes(),
            final(self).debt() == old(self).debt(),
            final(self).gate() == old(self).gate(),
            final(self).pending() == old(self).pending(),
    {
        self.listener.bell();
    }

    /// The child asked for something to be put on a clipboard.
    pub fn clipboard_write(&mut self, target: ClipboardTarget, offered: &[Representation]) -> (answer: Result<(), ClipboardRefusal>)
        requires
            old(self).wf(),
        ensures
            final(self).wf(),
            final(self).writes() == old(self).writes(),
            final(self).debt() == old(self).debt(),
            final(self).gate() == old(self).gate(),
            final(self).pending() == old(self).pending(),
            match crate::listener::clipboard_outcome(offered@) {
                Err(refusal) => answer == Err::<(), ClipboardRefusal>(refusal) && final(self).events() == old(self).events(),
                Ok(None) => answer is Ok && final(self).events() == old(self).events(),
                Ok(Some(chars)) => {
                    &&& answer is Ok
                    &&& final(self).events().has_arrival()
                    &&& exists|text: String|
                        text@ == chars && (final(self).events().queued(), final(self).events().dropped())
                            == pushed(
                            old(self).events().queued(),
                            old(self).events().dropped(),
                            (Event::ClipboardWrite { target, text }),
                        )
                },
            },
    {
        self.listener.clipboard_write(target, offered)
    }

    /// Take the bytes queued for the child, emptying the queue.
    ///
    /// The slice stays valid until the next take.
    pub fn take_writes(&mut self) -> (taken: &[u8])
        requires
            old(self).wf(),
        ensures
            final(self).wf(),
            taken@ == old(self).writes().queued(),
            final(self).writes().queued() == Seq::<u8>::empty(),
            final(self).writes().has_overrun() == old(self).writes().has_overrun(),
            final(self).events() == old(self).events(),
            final(self).debt() == old(self).debt(),
            final(self).gate() == old(self).gate(),
            final(self).pending() == old(self).pending(),
    {
        self.drained = self.listener.take_writes();
        self.drained.as_slice()
    }

    /// Take the events queued for the app, emptying the queue, along with how
    /// many were dropped for want of room since the last take.
    pub fn take_events(&mut self) -> (taken: (Vec<Event>, u64))
        requires
            old(self).wf(),
        ensures
            final(self).wf(),
            taken.0@ == old(self).events().queued(),
            taken.1 == old(self).events().dropped(),
            final(self).events().queued() == Seq::<Event>::empty(),
            final(self).events().dropped() == 0,
            final(self).events().has_arrival() == old(self).events().has_arrival(),
            final(self).writes() == old(self).writes(),
            final(self).debt() == old(self).debt(),
            final(self).gate() == old(self).gate(),
            final(self).pending() == old(self).pending(),
    {
        self.listener.take_events()
    }

    /// Take the latest snapshot, emptying the mailbox.
    ///
    /// Returns `None` when nothing has been published since the last take.
    pub fn take_snapshot(&mut self) -> (taken: Option<Snapshot>)
        requires
            old(self).wf(),
        ensures
            final(self).wf(),
            taken == old(self).pending(),
            taken matches Some(frame) ==> consistent(frame),
            final(self).pending() is None,
            final(self).writes() == old(self).writes(),
            final(self).events() == old(self).events(),
            final(self).debt() == old(self).debt(),
            final(self).gate() == old(self).gate(),
    {
        self.mailbox.take()
    }

    /// Publish what a capture produced, unless it produced nothing, then wake
    /// the consumer if the round left it anything — unless a synchronized
    /// output block is open.
    ///
    /// `captured` is the frame the engine gave, or `None` when nothing
    /// changed; `open` is whether a block is open as the round left it; `now`
    /// is the clock. An event that arrived is as much reason to wake as a
    /// frame is.
    pub fn publish(&mut self, captured: Option<Snapshot>, open: bool, now: u64)
        requires
            old(self).wf(),
            captured matches Some(frame) ==> consistent(frame),
        ensures
            final(self).wf(),
            match captured {
                None => final(self).pending() == old(self).pending() && final(self).last_screen_view()
                    == old(self).last_screen_view(),
                Some(frame) => final(self).pending() matches Some(published) && publishes(
                    published,
                    frame,
                    old(self).pending(),
                ) && final(self).last_screen_view() == screen_view(frame.screen),
            },
            ({
                let (gate, release) = gate_step(
                    old(self).gate(),
                    old(self).events().has_arrival() || captured is Some,
                    open,
                    now,
                );
                &&& final(self).gate() == gate
                &&& match release {
                    Release::Hold => final(self).debt() == old(self).debt(),
                    Release::Pay { owe } => paid_out(old(self).debt(), final(self).debt(), owe),
                }
            }),
            !final(self).events().has_arrival(),
            final(self).events().queued() == old(self).events().queued(),
            final(self).events().dropped() == old(self).events().dropped(),
            final(self).writes() == old(self).writes(),
    {
        let mut something_to_take = self.listener.take_arrival();
        if let Some(mut snapshot) = captured {
            self.last_screen = snapshot.screen.copied();
            if let Some(dropped) = self.mailbox.take() {
                snapshot.absorb_marks_of(&dropped);
            }
            self.mailbox.publish(snapshot);
            something_to_take = true;
        }
        let release = self.gate.step(something_to_take, open, now);
        self.pay(release);
    }

    /// Hand over a wake the hold released, if it released one.
    fn pay(&mut self, release: Release)
        requires
            old(self).wf(),
        ensures
            final(self).wf(),
            match release {
                Release::Hold => final(self).debt() == old(self).debt(),
                Release::Pay { owe } => paid_out(old(self).debt(), final(self).debt(), owe),
            },
            final(self).gate() == old(self).gate(),
            final(self).pending() == old(self).pending(),
            final(self).last_screen_view() == old(self).last_screen_view(),
            final(self).writes() == old(self).writes(),
            final(self).events() == old(self).events(),
    {
        if let Release::Pay { owe } = release {
            if owe {
                self.wake.owe();
            }
            self.wake.settle();
        }
    }

    /// Publish what a feed left, and report an answer that did not fit.
    ///
    /// The overrun is read before publishing, so that one left standing does
    /// not surface on some later feed that overran nothing.
    ///
    /// # Errors
    ///
    /// [`Error::WriteQueueFull`] when the terminal's answers to what was fed
    /// did not fit in the writer queue. The frame is published either way.
    pub fn fed(&mut self, captured: Option<Snapshot>, open: bool, now: u64) -> (outcome: Result<(), Error>)
        requires
            old(self).wf(),
            captured matches Some(frame) ==> consistent(frame),
        ensures
            final(self).wf(),
            outcome is Ok == !old(self).writes().has_overrun(),
            outcome is Err ==> outcome == Err::<(), Error>(Error::WriteQueueFull),
            !final(self).writes().has_overrun(),
            final(self).writes().queued() == old(self).writes().queued(),
            match captured {
                None => final(self).pending() == old(self).pending(),
                Some(frame) => final(self).pending() matches Some(published) && publishes(
                    published,
                    frame,
                    old(self).pending(),
                ),
            },
            ({
                let (gate, release) = gate_step(
                    old(self).gate(),
                    old(self).events().has_arrival() || captured is Some,
                    open,
                    now,
                );
                &&& final(self).gate() == gate
                &&& match release {
                    Release::Hold => final(self).debt() == old(self).debt(),
                    Release::Pay { owe } => paid_out(old(self).debt(), final(self).debt(), owe),
                }
            }),
            final(self).events().queued() == old(self).events().queued(),
    {
        let overran = self.listener.take_overrun();
        self.publish(captured, open, now);
        if overran {
            return Err(Error::WriteQueueFull);
        }
        Ok(())
    }

    /// Queue the child's end for the app, publish the frame captured for it,
    /// and wake the consumer even inside a synchronized output block.
    ///
    /// A block the child left open can never close, and no round follows
    /// this one to carry what was held back.
    pub fn note_child_exit(&mut self, code: i32, captured: Snapshot, open: bool, now: u64)
        requires
            old(self).wf(),
            consistent(captured),
        ensures
            final(self).wf(),
            (final(self).events().queued(), final(self).events().dropped()) == pushed(
                old(self).events().queued(),
                old(self).events().dropped(),
                (Event::ChildExited { code }),
            ),
            final(self).pending() matches Some(published) && publishes(published, captured, old(self).pending()),
            final(self).gate().held_since is None,
            !final(self).gate().held_back,
            !final(self).debt().owed() || !final(self).debt().listening(),
            old(self).debt().listening() ==> final(self).debt().payments() > old(self).debt().payments(),
            final(self).writes() == old(self).writes(),
    {
        self.listener.queue_event(Event::ChildExited { code });
        self.publish(Some(captured), open, now);
        let release = self.gate.release();
        self.pay(release);
    }

    /// How many bytes are waiting for the child.
    pub fn waiting(&self) -> (count: usize)
        requires
            self.wf(),
        ensures
            count == self.writes().queued().len(),
    {
        self.listener.waiting()
    }

    /// Hand what is queued for the child to `take_some`, dropping as much of
    /// it as was taken; on a failure, nothing is dropped.
    pub fn drain_writes_with<F>(&mut self, take_some: F) -> (drained: Result<(), Error>)
        where
            F: FnOnce(&[u8]) -> Result<usize, Error>,
        requires
            old(self).wf(),
            forall|lent: &[u8]| lent@ == old(self).writes().queued() ==> #[trigger] call_requires(take_some, (lent,)),
            forall|lent: &[u8], taken: Result<usize, Error>|
                lent@ == old(self).writes().queued() && call_ensures(take_some, (lent,), taken) ==> (taken matches Ok(
                    n,
                ) ==> n <= lent@.len()),
        ensures
            final(self).wf(),
            old(self).writes().queued().len() == 0 ==> drained is Ok && final(self).writes().queued()
                == old(self).writes().queued(),
            old(self).writes().queued().len() > 0 ==> exists|lent: &[u8], taken: Result<usize, Error>| {
                &&& lent@ == old(self).writes().queued()
                &&& call_ensures(take_some, (lent,), taken)
                &&& match taken {
                    Ok(n) => drained is Ok && final(self).writes().queued() == old(self).writes().queued().subrange(
                        n as int,
                        old(self).writes().queued().len() as int,
                    ),
                    Err(e) => drained == Err::<(), Error>(e) && final(self).writes().queued() == old(
                        self,
                    ).writes().queued(),
                }
            },
            final(self).events() == old(self).events(),
            final(self).pending() == old(self).pending(),
            final(self).debt() == old(self).debt(),
            final(self).gate() == old(self).gate(),
    {
        self.listener.drain_writes_with(take_some)
    }

    /// The end of the loop that drove this session: one that returned
    /// cleanly leaves it alone; one that failed leaves it broken, and the
    /// consumer is told once — owed first, so nobody registered still hears
    /// of it on registering.
    pub fn wind_up(&mut self, finished_cleanly: bool, broken: &mut bool)
        requires
            old(self).wf(),
        ensures
            final(self).wf(),
            finished_cleanly ==> *final(broken) == *old(broken) && final(self).debt() == old(self).debt(),
            !finished_cleanly ==> *final(broken) && paid_out(old(self).debt(), final(self).debt(), true),
            final(self).pending() == old(self).pending(),
            final(self).writes() == old(self).writes(),
            final(self).events() == old(self).events(),
            final(self).gate() == old(self).gate(),
    {
        crate::pty::wind_up(finished_cleanly, broken, &mut self.wake);
    }

    /// Give up on a block that has held a wake back too long, answering with
    /// how much longer the one still open may hold it, in nanoseconds.
    ///
    /// `None` means there is nothing to come back for: no wake is being
    /// held, or the one that was has just gone out.
    pub fn wait_out_sync_block(&mut self, now: u64) -> (left: Option<u64>)
        requires
            old(self).wf(),
        ensures
            final(self).wf(),
            ({
                let (gate, answer, release) = wait_step(old(self).gate(), now);
                &&& final(self).gate() == gate
                &&& left == answer
                &&& match release {
                    None => final(self).debt() == old(self).debt(),
                    Some(Release::Hold) => final(self).debt() == old(self).debt(),
                    Some(Release::Pay { owe }) => paid_out(old(self).debt(), final(self).debt(), owe),
                }
            }),
            final(self).pending() == old(self).pending(),
            final(self).writes() == old(self).writes(),
            final(self).events() == old(self).events(),
    {
        let (left, release) = self.gate.wait_out(now);
        if let Some(release) = release {
            self.pay(release);
        }
        left
    }
}

} // verus!

verus! {

/// A wake a block is holding back is not paid to a consumer that registers
/// mid-block: registering pays only what had already fallen due, and the
/// held-back wake is still held.
pub proof fn law_held_wake_is_not_paid_on_register<W: Fn()>(
    gate: SyncGate,
    owed: bool,
    now: u64,
    before: Debt<W>,
    joined: Debt<W>,
)
    requires
        gate.held_back || owed,
        !gate.given_up,
        gate_step(gate, owed, true, now).1 == Release::Hold,
        registered(before, joined, true),
    ensures
        joined.payments() == before.payments() + if before.owed() {
            1nat
        } else {
            0nat
        },
        gate_step(gate, owed, true, now).0.held_back,
{
}

} // verus!

verus! {

/// What is published is as sound as what was captured: a frame whose
/// spilled cells point at whole runs in its grapheme table still does once
/// it has taken on the marks of the frame it replaced, so a consumer can
/// index the table through any cell it is handed.
pub proof fn law_published_frame_points_at_whole_runs(
    published: Snapshot,
    captured: Snapshot,
    replaced: Option<Snapshot>,
)
    requires
        consistent(captured),
        publishes(published, captured, replaced),
    ensures
        consistent(published),
{
}

} // verus!

//! The synchronized output hold: when a wake that fell due is handed to the
//! consumer, and when it is held back because the child is mid-draw.
//!
//! A block (DEC mode 2026) is the child saying its screen is half drawn, so a
//! wake inside one would hand over a half-drawn frame. What is held back is a
//! single owed wake rather than one per frame, which is what makes the end of
//! a block exactly one. A block the child never closes is given up on once it
//! has held a wake back for the timeout, after which nothing is held back
//! until the block closes.
//!
//! Time reaches this module as readings of a monotonic clock in nanoseconds,
//! taken by whoever drives the session.

use vstd::prelude::*;

verus! {

/// How long a synchronized output block may hold a wake back before it is
/// given up on, in nanoseconds: one second.
pub const SYNC_TIMEOUT_NANOS: u64 = 1_000_000_000;

/// Where the hold stands.
#[derive(Clone, Copy, Debug, PartialEq, Eq, Structural)]
pub struct SyncGate {
    /// News the consumer has not been told of, held back by an open block.
    pub held_back: bool,
    /// The clock reading when the held-back wake was first held back, or
    /// `None` when nothing is being held back.
    pub held_since: Option<u64>,
    /// Whether the block now open has been given up on.
    pub given_up: bool,
}

/// What the hold decides about a wake.
#[derive(Clone, Copy, Debug, PartialEq, Eq, Structural)]
pub enum Release {
    /// Hold it back: a block is open.
    Hold,
    /// Hand it over now. `owe` says whether there was news to owe for; the
    /// debt is settled either way, so that what fell due earlier is paid.
    Pay { owe: bool },
}

/// A hold with nothing held back and no block given up on.
pub open spec fn open_gate() -> SyncGate {
    SyncGate { held_back: false, held_since: None, given_up: false }
}

/// The hold once what it held back has gone out.
pub open spec fn released(gate: SyncGate) -> (SyncGate, Release) {
    (SyncGate { held_back: false, held_since: None, ..gate }, Release::Pay { owe: gate.held_back })
}

/// What a round does to the hold, given whether it left news to tell
/// (`owed`), whether a block is open as the round left it (`open`), and the
/// clock (`now`).
pub open spec fn gate_step(gate: SyncGate, owed: bool, open: bool, now: u64) -> (SyncGate, Release) {
    let held_back = gate.held_back || owed;
    let given_up = gate.given_up && open;
    if held_back && open && !given_up {
        (
            SyncGate {
                held_back: true,
                held_since: if gate.held_since is None {
                    Some(now)
                } else {
                    gate.held_since
                },
                given_up,
            },
            Release::Hold,
        )
    } else {
        released(SyncGate { held_back, held_since: gate.held_since, given_up })
    }
}

/// How long a wake held back since `since` may still be held at `now`, if
/// at all: the timeout less what has elapsed, and nothing once that is zero.
pub open spec fn time_left(since: u64, now: u64) -> Option<u64> {
    let elapsed: int = if now >= since {
        now - since
    } else {
        0
    };
    if elapsed < SYNC_TIMEOUT_NANOS {
        Some((SYNC_TIMEOUT_NANOS - elapsed) as u64)
    } else {
        None
    }
}

/// What waiting on a block does to the hold at `now`: how much longer it may
/// hold, or, once its time is up, the block given up on and its wake paid.
pub open spec fn wait_step(gate: SyncGate, now: u64) -> (SyncGate, Option<u64>, Option<Release>) {
    match gate.held_since {
        None => (gate, None, None),
        Some(since) => match time_left(since, now) {
            Some(left) => (gate, Some(left), None),
            None => {
                let (after, release) = released(SyncGate { given_up: true, ..gate });
                (after, None, Some(release))
            },
        },
    }
}

impl SyncGate {
    /// Well-formed: the clock runs only while something is held back.
    pub open spec fn wf(&self) -> bool {
        self.held_since is Some ==> self.held_back
    }

    /// A hold with nothing held back.
    pub fn new() -> (gate: Self)
        ensures
            gate == open_gate(),
            gate.wf(),
    {
        SyncGate { held_back: false, held_since: None, given_up: false }
    }

    /// Decide about the wake a round owes, if it owes one.
    ///
    /// What is read is the mode as the round left it, so a round that closes
    /// one block and opens the next holds the first one's wake until the
    /// second closes; the timeout bounds that.
    pub fn step(&mut self, owed: bool, open: bool, now: u64) -> (release: Release)
        requires
            old(self).wf(),
        ensures
            (*final(self), release) == gate_step(*old(self), owed, open, now),
            final(self).wf(),
    {
        self.held_back = self.held_back || owed;
        if !open {
            self.given_up = false;
        }
        if self.held_back && open && !self.given_up {
            if self.held_since.is_none() {
                self.held_since = Some(now);
            }
            return Release::Hold;
        }
        self.release()
    }

    /// Let what was held back go out.
    pub fn release(&mut self) -> (release: Release)
        ensures
            (*final(self), release) == released(*old(self)),
            final(self).wf(),
    {
        let owe = self.held_back;
        self.held_since = None;
        self.held_back = false;
        Release::Pay { owe }
    }

    /// Give up on a block that has held a wake back too long, answering with
    /// how much longer the one still open may hold it.
    ///
    /// `None` means there is nothing to come back for: no wake is held, or
    /// the one that was is released here — in which case the release says
    /// so. The block is given up on rather than let through a frame per
    /// timeout.
    pub fn wait_out(&mut self, now: u64) -> (answer: (Option<u64>, Option<Release>))
        requires
            old(self).wf(),
        ensures
            (*final(self), answer.0, answer.1) == wait_step(*old(self), now),
            final(self).wf(),
    {
        let since = match self.held_since {
            None => return (None, None),
            Some(since) => since,
        };
        let elapsed = now.saturating_sub(since);
        if elapsed < SYNC_TIMEOUT_NANOS {
            return (Some(SYNC_TIMEOUT_NANOS - elapsed), None);
        }
        self.given_up = true;
        let release = self.release();
        (None, Some(release))
    }
}

} // verus!

verus! {

/// While a block is open and has not been given up on, a wake that is owed
/// is held back rather than handed over.
pub proof fn law_open_block_holds_the_wake(gate: SyncGate, owed: bool, now: u64)
    requires
        gate.held_back || owed,
        !gate.given_up,
    ensures
        gate_step(gate, owed, true, now).1 == Release::Hold,
        gate_step(gate, owed, true, now).0.held_back,
{
}

/// The close of a block hands over what it held exactly once: the round that
/// sees it closed pays what was held, and a later round with nothing new
/// owes nothing more.
pub proof fn law_closed_block_pays_once(gate: SyncGate, owed: bool, now: u64, later: u64)
    requires
        gate.held_back,
    ensures
        gate_step(gate, owed, false, now).1 == (Release::Pay { owe: true }),
        gate_step(gate_step(gate, owed, false, now).0, false, false, later).1 == (Release::Pay {
            owe: false,
        }),
{
}

/// The clock starts at the first wake held back: a later one held back in
/// the same block does not restart it.
pub proof fn law_clock_starts_at_first_hold(gate: SyncGate, owed: bool, now: u64)
    requires
        gate.held_since is Some,
        gate.held_back,
        !gate.given_up,
    ensures
        gate_step(gate, owed, true, now).0.held_since == gate.held_since,
{
}

/// A block is never given up on before its time: waiting on one still within
/// the timeout releases nothing and answers with time left.
pub proof fn law_no_give_up_before_time(gate: SyncGate, since: u64, now: u64)
    requires
        gate.held_since == Some(since),
        now < since + SYNC_TIMEOUT_NANOS,
    ensures
        wait_step(gate, now).0 == gate,
        wait_step(gate, now).1 matches Some(left) && left > 0,
        wait_step(gate, now).2 is None,
{
}

/// A block open past its time is given up on: the wake it held goes out
/// once, and nothing is held back again while the block stays open.
pub proof fn law_overdue_block_is_given_up_on(gate: SyncGate, since: u64, now: u64, owed: bool, later: u64)
    requires
        gate.wf(),
        gate.held_since == Some(since),
        now >= since + SYNC_TIMEOUT_NANOS,
    ensures
        wait_step(gate, now).1 is None,
        wait_step(gate, now).2 == Some(Release::Pay { owe: true }),
        wait_step(gate, now).0.given_up,
        gate_step(wait_step(gate, now).0, owed, true, later).1 == (Release::Pay { owe: owed }),
        wait_step(gate_step(wait_step(gate, now).0, owed, true, later).0, later).1 is None,
{
}

/// A block that closes puts the suppression back: after a block given up on
/// closes, the next block holds its wake again.
pub proof fn law_closing_restores_the_hold(gate: SyncGate, owed: bool, now: u64, later: u64)
    requires
        gate.given_up,
    ensures
        !gate_step(gate, owed, false, now).0.given_up,
        gate_step(gate_step(gate, owed, false, now).0, true, true, later).1 == Release::Hold,
{
}

/// Given up on, a block stays given up on as long as every round ends with
/// it open — the round is the only boundary this side can see.
pub proof fn law_given_up_lasts_while_open(gate: SyncGate, owed: bool, now: u64)
    requires
        gate.given_up,
    ensures
        gate_step(gate, owed, true, now).0.given_up,
        gate_step(gate, owed, true, now).1 is Pay,
{
}

} // verus!

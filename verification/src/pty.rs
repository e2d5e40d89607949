//! The decisions of the loop that drives a session behind a pseudoterminal.
//!
//! The waiting, reading, writing and reaping are the application's, which
//! owns the file descriptors. What it found is handed here as plain values,
//! and what the loop does next is answered here: whether to stop, drain or
//! read, what a read came to, which failures end the session, and what the
//! session says of its child.

use vstd::prelude::*;

use crate::session::ChildState;
use crate::wake::{paid_out, Debt};
use crate::Error;

verus! {

/// What a wait found ready.
#[derive(Clone, Copy, Debug, PartialEq, Eq, Structural)]
pub struct Ready {
    /// The child wrote something.
    pub readable: bool,
    /// The terminal has room for more.
    pub writable: bool,
    /// The child and everything it started have let go, so nothing more
    /// will be written to the terminal.
    pub ended: bool,
}

/// What one read off the terminal produced.
#[derive(Clone, Copy, Debug, PartialEq, Eq, Structural)]
pub enum Chunk {
    /// This many bytes went into the buffer.
    Bytes(usize),
    /// Nothing was there after all.
    Empty,
    /// The child is gone and nothing more will arrive.
    Ended,
}

/// What one round of the loop does once its wait returned.
#[derive(Clone, Copy, Debug, PartialEq, Eq, Structural)]
pub struct Round {
    /// The session is being released: leave the loop.
    pub stop: bool,
    /// Hand queued bytes to the terminal.
    pub drain: bool,
    /// Read what the child wrote.
    pub read: bool,
}

/// The round a wait's answer calls for: nothing but stopping once the
/// session is being released, otherwise a drain where there is room and a
/// read where there is something to read.
pub open spec fn round_for(ready: Ready, stopping: bool) -> Round {
    Round { stop: stopping, drain: !stopping && ready.writable, read: !stopping && ready.readable }
}

/// Plan the round after a wait.
pub fn plan_round(ready: Ready, stopping: bool) -> (round: Round)
    ensures
        round == round_for(ready, stopping),
{
    Round { stop: stopping, drain: !stopping && ready.writable, read: !stopping && ready.readable }
}

/// What a read came to: how many bytes to feed, and whether the child is
/// now known to be gone.
pub open spec fn read_outcome(chunk: Chunk, ended: bool) -> (Option<usize>, bool) {
    match chunk {
        Chunk::Bytes(n) => (Some(n), ended),
        Chunk::Empty => (None, ended),
        Chunk::Ended => (None, true),
    }
}

/// Read a chunk: the bytes to feed, if any, and whether the child ended.
pub fn after_read(chunk: Chunk, ended: bool) -> (outcome: (Option<usize>, bool))
    ensures
        outcome == read_outcome(chunk, ended),
{
    match chunk {
        Chunk::Bytes(n) => (Some(n), ended),
        Chunk::Empty => (None, ended),
        Chunk::Ended => (None, true),
    }
}

/// What the loop does once the child is known to have ended: feed what is
/// still on the terminal, or, once a read finds nothing left, reap the
/// child and report its end.
#[derive(Clone, Copy, Debug, PartialEq, Eq, Structural)]
pub enum Ending {
    /// Feed this many bytes, then read again.
    Feed(usize),
    /// The terminal is dry: reap the child, capture, and report the exit.
    Reap,
}

/// The step a read after the child's end calls for. The terminal is drained
/// dry before the child is reaped, so nothing it wrote is lost behind the
/// report of its end.
pub open spec fn ending_of(chunk: Chunk) -> Ending {
    match chunk {
        Chunk::Bytes(n) => Ending::Feed(n),
        _ => Ending::Reap,
    }
}

/// Decide the step a read after the child's end calls for.
pub fn ending_step(chunk: Chunk) -> (step: Ending)
    ensures
        step == ending_of(chunk),
{
    match chunk {
        Chunk::Bytes(n) => Ending::Feed(n),
        _ => Ending::Reap,
    }
}

/// What a feed's result means for the loop. The loop is the only drain a
/// PTY session's writer queue has, so a full one is shed rather than
/// reported; anything else ends the session.
pub fn feed_outcome(fed: Result<(), Error>) -> (outcome: Result<(), Error>)
    ensures
        outcome is Ok <==> (fed is Ok || fed == Err::<(), Error>(Error::WriteQueueFull)),
        outcome is Err ==> outcome == fed,
{
    match fed {
        Ok(()) => Ok(()),
        Err(Error::WriteQueueFull) => Ok(()),
        Err(error) => Err(error),
    }
}

/// The code a child that has not ended is recorded with.
pub const STILL_RUNNING: i32 = -1;

/// What the recorded code says of a child: still running, or gone with
/// that code. A session with a PTY behind it always has a child.
pub open spec fn child_of(code: i32) -> ChildState {
    if code == STILL_RUNNING {
        ChildState::Running
    } else {
        ChildState::Exited(code)
    }
}

/// Read the recorded code.
pub fn child_state_of(code: i32) -> (child: ChildState)
    ensures
        child == child_of(code),
        child != ChildState::NoChild,
{
    if code == STILL_RUNNING {
        ChildState::Running
    } else {
        ChildState::Exited(code)
    }
}

/// The end of a session's loop. One that returned cleanly leaves the
/// session alone; one that failed or panicked leaves it broken, and the
/// consumer is told once — owed first, so a break with nobody registered is
/// still told to whoever comes next.
pub fn wind_up<W: Fn()>(finished_cleanly: bool, broken: &mut bool, wake: &mut Debt<W>)
    requires
        old(wake).wf(),
    ensures
        finished_cleanly ==> *final(broken) == *old(broken) && *final(wake) == *old(wake),
        !finished_cleanly ==> *final(broken) && paid_out(*old(wake), *final(wake), true),
{
    if finished_cleanly {
        return;
    }
    *broken = true;
    wake.owe();
    wake.settle();
}

/// Whether something other than the shell holds the terminal's foreground:
/// a foreground group that is not the shell's is a program running. A
/// terminal with no foreground group to read reads as quiet.
pub open spec fn is_busy(foreground: Option<i32>, shell: i32) -> bool {
    foreground matches Some(group) && group != shell
}

/// Decide whether the terminal is busy from the foreground group read off it,
/// if one could be read, and the group the shell leads.
pub fn busy_verdict(foreground: Option<i32>, shell: i32) -> (busy: bool)
    ensures
        busy == is_busy(foreground, shell),
{
    match foreground {
        Some(group) => group != shell,
        None => false,
    }
}

/// How many pixels `cells` cells of `cell_size` pixels span, as the
/// terminal's size records it: saturated at the most it can hold.
pub open spec fn extent(cells: u16, cell_size: u32) -> u16 {
    if cells as int * cell_size as int <= u16::MAX as int {
        (cells as int * cell_size as int) as u16
    } else {
        u16::MAX
    }
}

/// The pixel extent of `cells` cells of `cell_size` pixels each.
pub fn pixel_extent(cells: u16, cell_size: u32) -> (pixels: u16)
    ensures
        pixels == extent(cells, cell_size),
{
    proof {
        assert(cells as int * cell_size as int <= 65535 * 4294967295) by (nonlinear_arith)
            requires
                cells <= 65535,
                cell_size <= 4294967295,
        ;
    }
    let total: u64 = cells as u64 * cell_size as u64;
    if total <= u16::MAX as u64 {
        total as u16
    } else {
        u16::MAX
    }
}

/// The one number a shell reports a child's end by: what it exited with,
/// or 128 plus the signal that ended it.
pub open spec fn reported_code(code: Option<i32>, signal: Option<i32>) -> int {
    match code {
        Some(c) => c as int,
        None => 128 + match signal {
            Some(s) => s as int,
            None => 0,
        },
    }
}

/// The exit code to record for a child that ended with `code` or by
/// `signal`.
pub fn exit_code_of(code: Option<i32>, signal: Option<i32>) -> (reported: i32)
    requires
        signal matches Some(s) ==> s <= i32::MAX - 128,
    ensures
        reported == reported_code(code, signal),
{
    match code {
        Some(c) => c,
        None => 128 + match signal {
            Some(s) => s,
            None => 0,
        },
    }
}

/// A loop that ended badly always leaves the session broken, and a
/// consumer that is listening has been called by the time it is.
pub proof fn law_a_broken_loop_tells_a_listening_consumer<W: Fn()>(before: Debt<W>, after: Debt<W>)
    requires
        paid_out(before, after, true),
    ensures
        before.listening() ==> after.payments() == before.payments() + 1 && !after.owed(),
        !before.listening() ==> after.owed() && after.payments() == before.payments(),
{
}

/// A round does only what its wait found ready, and nothing once the
/// session is being released.
pub proof fn law_round_does_what_was_found_ready(ready: Ready, stopping: bool)
    ensures
        stopping ==> round_for(ready, stopping).stop && !round_for(ready, stopping).drain && !round_for(
            ready,
            stopping,
        ).read,
        !stopping ==> !round_for(ready, stopping).stop && round_for(ready, stopping).drain == ready.writable
            && round_for(ready, stopping).read == ready.readable,
{
}

/// A read's bytes are fed, as many as were read; the child is known to have
/// ended once a read says so, and stays known to have ended.
pub proof fn law_read_feeds_what_it_read(chunk: Chunk, ended: bool)
    ensures
        chunk matches Chunk::Bytes(n) ==> read_outcome(chunk, ended) == (Some(n), ended),
        chunk is Empty ==> read_outcome(chunk, ended) == (None::<usize>, ended),
        chunk is Ended ==> read_outcome(chunk, ended).0 is None && read_outcome(chunk, ended).1,
        ended ==> read_outcome(chunk, ended).1,
{
}

/// The child a session reports: running while no code is recorded, and
/// gone with exactly the recorded code once one is.
pub proof fn law_child_is_gone_with_its_recorded_code(code: i32)
    ensures
        code == STILL_RUNNING ==> child_of(code) == ChildState::Running,
        code != STILL_RUNNING ==> child_of(code) == ChildState::Exited(code),
{
}

/// A child's end is reported as its own exit code when it exited, and as
/// 128 past the signal when a signal ended it.
pub proof fn law_exit_is_reported_as_a_shell_does(code: Option<i32>, signal: Option<i32>)
    ensures
        code matches Some(c) ==> reported_code(code, signal) == c,
        code is None ==> (signal matches Some(s) ==> reported_code(code, signal) == 128 + s),
        code is None && signal is None ==> reported_code(code, signal) == 128,
{
}

/// A terminal's pixel size is the cells times their size when that fits,
/// and the most it can record otherwise; it never grows as the cells shrink.
pub proof fn law_pixel_extent_is_the_product_saturated(cells: u16, fewer: u16, cell_size: u32)
    requires
        fewer <= cells,
    ensures
        cells as int * cell_size as int <= u16::MAX ==> extent(cells, cell_size) == cells as int * cell_size as int,
        cells as int * cell_size as int > u16::MAX ==> extent(cells, cell_size) == u16::MAX,
        extent(fewer, cell_size) <= extent(cells, cell_size),
{
    assert(fewer as int * cell_size as int <= cells as int * cell_size as int) by (nonlinear_arith)
        requires
            fewer <= cells,
    ;
}

/// The terminal is busy exactly when a foreground group could be read and it
/// is not the shell's.
pub proof fn law_busy_only_for_a_group_not_the_shell(group: i32, shell: i32)
    ensures
        is_busy(Some(group), shell) == (group != shell),
        !is_busy(None, shell),
{
}

} // verus!

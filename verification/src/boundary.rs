//! What crosses the C boundary as plain values: the status every call
//! answers with, what a snapshot is stamped with, and the rules that decide
//! which status a call comes back as.
//!
//! The pointers and the panic guard are the boundary's own; every choice
//! made between them is here.

use vstd::prelude::*;
use vstd::std_specs::convert::FromSpecImpl;

use crate::key::Key;
use crate::queue::{ClipboardTarget, Event};
use crate::session::ChildState;
use crate::snapshot::Snapshot;
use crate::Error;

verus! {

/// The version of the layouts this library was built with. A caller
/// compares it with the header it compiled against and stops on a mismatch.
pub const KT_ABI_VERSION: u32 = 8;

/// Outcome of a call across the boundary.
#[derive(Clone, Copy, Debug, PartialEq, Eq, Structural)]
pub enum KtStatus {
    /// The call succeeded.
    Success,
    /// Nothing was available. Not a failure.
    NoValue,
    /// A required pointer argument was null.
    NullArgument,
    /// The VT engine rejected the operation.
    Engine,
    /// The terminal's state is bigger than a snapshot can describe.
    TooLarge,
    /// A coordinate fell outside the terminal.
    OutOfRange,
    /// Something inside the core panicked; the session is now defunct.
    Panicked,
    /// The session already panicked. It keeps its last good snapshot but
    /// takes no more input.
    Defunct,
    /// The call is only for a session with no PTY behind it.
    NotDetached,
    /// The queue of bytes bound for the child is at its cap, and what did
    /// not fit was dropped. Reported once per overrun.
    WriteQueueFull,
    /// An operating system call failed.
    Io,
    /// A key event named no key. Nothing was queued for the child.
    UnidentifiedKey,
}

/// The status a core error crosses the boundary as.
pub open spec fn error_status(error: Error) -> KtStatus {
    match error {
        Error::Engine => KtStatus::Engine,
        Error::TooLarge => KtStatus::TooLarge,
        Error::OutOfRange => KtStatus::OutOfRange,
        Error::WriteQueueFull => KtStatus::WriteQueueFull,
        Error::Io => KtStatus::Io,
    }
}

impl From<Error> for KtStatus {
    fn from(error: Error) -> (status: KtStatus) {
        match error {
            Error::Engine => KtStatus::Engine,
            Error::TooLarge => KtStatus::TooLarge,
            Error::OutOfRange => KtStatus::OutOfRange,
            Error::WriteQueueFull => KtStatus::WriteQueueFull,
            Error::Io => KtStatus::Io,
        }
    }
}

impl FromSpecImpl<Error> for KtStatus {
    open spec fn obeys_from_spec() -> bool {
        true
    }

    open spec fn from_spec(error: Error) -> KtStatus {
        error_status(error)
    }
}

/// What a fallible core call comes back across the boundary as.
pub fn status(result: Result<(), Error>) -> (status: KtStatus)
    ensures
        status == match result {
            Ok(()) => KtStatus::Success,
            Err(error) => error_status(error),
        },
{
    match result {
        Ok(()) => KtStatus::Success,
        Err(error) => KtStatus::from(error),
    }
}

/// How an entry point came out: `Err` is a refusal at the boundary, before
/// the call reached the core; `Ok` is what the core answered.
pub open spec fn answered(outcome: Result<KtStatus, KtStatus>) -> KtStatus {
    match outcome {
        Ok(status) => status,
        Err(refusal) => refusal,
    }
}

/// Report an entry point's answer, whichever of the two it is.
pub fn answer<F: FnOnce() -> Result<KtStatus, KtStatus>>(call: F) -> (status: KtStatus)
    requires
        call.requires(()),
    ensures
        exists|outcome: Result<KtStatus, KtStatus>|
            call.ensures((), outcome) && status == answered(outcome),
{
    let outcome = call();
    let status = match outcome {
        Ok(status) => status,
        Err(refusal) => refusal,
    };
    assert(call.ensures((), outcome) && status == answered(outcome));
    status
}

/// Which kind of event a boundary event is.
#[derive(Clone, Copy, Debug, PartialEq, Eq, Structural)]
pub enum KtEventKind {
    /// The child rang the bell.
    Bell,
    /// The child asked for text to be put on a clipboard.
    ClipboardWrite,
    /// The child is gone.
    ChildExited,
}

/// The plain fields of an event as it crosses: its kind, the clipboard a
/// write is bound for, and the code a child exited with. Every field is set
/// on every event, so what a kind leaves alone reads as the empty value —
/// the standard clipboard, and 0.
pub open spec fn event_fields(event: Event) -> (KtEventKind, ClipboardTarget, i32) {
    match event {
        Event::Bell => (KtEventKind::Bell, ClipboardTarget::Standard, 0),
        Event::ClipboardWrite { target, .. } => (KtEventKind::ClipboardWrite, target, 0),
        Event::ChildExited { code } => (KtEventKind::ChildExited, ClipboardTarget::Standard, code),
    }
}

/// The plain fields of `event`, as the boundary lays them out.
pub fn fields_of(event: &Event) -> (fields: (KtEventKind, ClipboardTarget, i32))
    ensures
        fields == event_fields(*event),
{
    match event {
        Event::Bell => (KtEventKind::Bell, ClipboardTarget::Standard, 0),
        Event::ClipboardWrite { target, .. } => (KtEventKind::ClipboardWrite, *target, 0),
        Event::ChildExited { code } => (KtEventKind::ChildExited, ClipboardTarget::Standard, *code),
    }
}

/// Whether a session has a child and what has become of it.
#[derive(Clone, Copy, Debug, PartialEq, Eq, Structural)]
pub enum KtChildState {
    /// There is no child.
    NoChild,
    /// The child is still running.
    Running,
    /// The child is gone, and the exit code says what by.
    Exited,
}

/// Whether a session still works.
#[derive(Clone, Copy, Debug, PartialEq, Eq, Structural)]
pub enum KtSessionState {
    /// Working.
    Working,
    /// Something inside it panicked. It keeps the last screen it published
    /// and takes no more input.
    Broken,
}

/// A child's state as the boundary reports it, with the exit code in a
/// field of its own that reads 0 unless the child exited.
pub open spec fn child_fields(child: ChildState) -> (KtChildState, i32) {
    match child {
        ChildState::NoChild => (KtChildState::NoChild, 0),
        ChildState::Running => (KtChildState::Running, 0),
        ChildState::Exited(code) => (KtChildState::Exited, code),
    }
}

/// Lay a child's state out for the boundary.
pub fn child_view(child: ChildState) -> (view: (KtChildState, i32))
    ensures
        view == child_fields(child),
{
    match child {
        ChildState::NoChild => (KtChildState::NoChild, 0),
        ChildState::Running => (KtChildState::Running, 0),
        ChildState::Exited(code) => (KtChildState::Exited, code),
    }
}

/// What a session says of itself: broken when defunct, working otherwise.
pub fn session_state(defunct: bool) -> (state: KtSessionState)
    ensures
        state == (if defunct {
            KtSessionState::Broken
        } else {
            KtSessionState::Working
        }),
{
    if defunct {
        KtSessionState::Broken
    } else {
        KtSessionState::Working
    }
}

/// A published frame and what the session said of itself when it was
/// taken, travelling together so a consumer draws one consistent answer.
pub struct KtSnapshot {
    /// The screen the session published.
    pub frame: Snapshot,
    /// What had become of the child.
    pub child: ChildState,
    /// Whether the session still worked.
    pub session: KtSessionState,
}

impl KtSnapshot {
    /// Stamp a frame with what the session says of itself now.
    pub fn stamped(frame: Snapshot, child: ChildState, defunct: bool) -> (snapshot: KtSnapshot)
        ensures
            snapshot.frame == frame,
            snapshot.child == child,
            snapshot.session == (if defunct {
                KtSessionState::Broken
            } else {
                KtSessionState::Working
            }),
    {
        KtSnapshot { frame, child, session: session_state(defunct) }
    }
}

/// What a take of the snapshot answers when there was no frame to hand
/// over: nothing new, unless the session is past working — a broken
/// session publishes no more, so "nothing new" would be the last thing a
/// consumer ever heard of it. A take that itself broke reports that.
pub open spec fn empty_take(taken: KtStatus, defunct: bool) -> KtStatus {
    if taken == KtStatus::Success {
        if defunct {
            KtStatus::Defunct
        } else {
            KtStatus::NoValue
        }
    } else {
        taken
    }
}

/// The answer to a take of the snapshot that found no frame.
pub fn nothing_taken(taken: KtStatus, defunct: bool) -> (status: KtStatus)
    ensures
        status == empty_take(taken, defunct),
{
    match taken {
        KtStatus::Success => if defunct {
            KtStatus::Defunct
        } else {
            KtStatus::NoValue
        },
        other => other,
    }
}

/// What a copy of the selection answers: the call's own failure if it
/// failed, no value when nothing was selected, success otherwise.
pub open spec fn copy_status<T>(called: KtStatus, taken: Option<T>) -> KtStatus {
    if called != KtStatus::Success {
        called
    } else if taken is None {
        KtStatus::NoValue
    } else {
        KtStatus::Success
    }
}

/// The answer to a copy of the selection.
pub fn copied<T>(called: KtStatus, taken: &Option<T>) -> (status: KtStatus)
    ensures
        status == copy_status(called, *taken),
{
    if called != KtStatus::Success {
        called
    } else if taken.is_none() {
        KtStatus::NoValue
    } else {
        KtStatus::Success
    }
}

/// A key event is refused before it reaches a session when it names no
/// key: the caller has a mapping to fill in.
pub fn key_refusal(key: Key) -> (refusal: Option<KtStatus>)
    ensures
        refusal == (if key == Key::Unidentified {
            Some(KtStatus::UnidentifiedKey)
        } else {
            None
        }),
{
    if key == Key::Unidentified {
        Some(KtStatus::UnidentifiedKey)
    } else {
        None
    }
}

/// Whether a session is defunct after a guarded call answered `status`.
pub open spec fn noted(defunct: bool, status: KtStatus) -> bool {
    defunct || status == KtStatus::Panicked
}

/// The refusal a call that would drive a session meets, if any.
pub open spec fn admission(defunct: bool, broken: bool) -> Option<KtStatus> {
    if defunct || broken {
        Some(KtStatus::Defunct)
    } else {
        None
    }
}

/// Whether a session is past working: a call here panicked, or its own
/// thread gave up.
pub struct Health {
    defunct: bool,
}

impl View for Health {
    type V = bool;

    /// Whether a call at the boundary has panicked on this session.
    closed spec fn view(&self) -> bool {
        self.defunct
    }
}

impl Health {
    /// A session nothing has broken yet.
    pub fn new() -> (health: Self)
        ensures
            !health@,
    {
        Health { defunct: false }
    }

    /// Whether the session is past working, by either road.
    pub fn is_defunct(&self, broken: bool) -> (defunct: bool)
        ensures
            defunct == (self@ || broken),
    {
        self.defunct || broken
    }

    /// Before a call that gives the session input: the refusal a defunct
    /// session answers with, or none to go ahead.
    pub fn refusal(&self, broken: bool) -> (refusal: Option<KtStatus>)
        ensures
            refusal == admission(self@, broken),
    {
        if self.defunct || broken {
            Some(KtStatus::Defunct)
        } else {
            None
        }
    }

    /// After a guarded call: a panic makes the session defunct for good.
    pub fn note(&mut self, status: KtStatus)
        ensures
            final(self)@ == noted(old(self)@, status),
    {
        if status == KtStatus::Panicked {
            self.defunct = true;
        }
    }
}

/// A session that panicked takes no more input: once a call comes back
/// panicked, every later call that would drive it is refused as defunct,
/// whatever the calls in between answered.
pub proof fn law_panicked_session_takes_no_more_input(
    before: bool,
    between: Seq<KtStatus>,
    broken: bool,
)
    ensures
        admission(between.fold_left(noted(before, KtStatus::Panicked), |d: bool, s: KtStatus| noted(d, s)), broken)
            == Some(KtStatus::Defunct),
    decreases between.len(),
{
    if between.len() > 0 {
        law_panicked_session_takes_no_more_input(before, between.drop_last(), broken);
    }
}

/// A broken session with nothing left to hand over says so rather than
/// "nothing new", and a working one with nothing to hand over says there is
/// nothing.
pub proof fn law_empty_take_tells_a_broken_session_apart(defunct: bool)
    ensures
        empty_take(KtStatus::Success, defunct) == (if defunct {
            KtStatus::Defunct
        } else {
            KtStatus::NoValue
        }),
        empty_take(KtStatus::Panicked, defunct) == KtStatus::Panicked,
{
}

/// Every core error crosses the boundary as a status of its own, and never
/// as one that reads as success or as nothing to report.
pub proof fn law_every_core_error_has_its_own_status(a: Error, b: Error)
    ensures
        error_status(a) == error_status(b) ==> a == b,
        error_status(a) != KtStatus::Success,
        error_status(a) != KtStatus::NoValue,
{
}

} // verus!

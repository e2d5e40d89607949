use std::cell::Cell as Counter;
use std::rc::Rc;

use knotty::boundary::{nothing_taken, KtStatus};
use knotty::listener::Representation;
use knotty::queue::{ClipboardTarget, Event};
use knotty::session::Session;
use knotty::snapshot::{Dirty, Row, ScreenState, Snapshot};
use knotty::sync::SYNC_TIMEOUT_NANOS;
use knotty::Error;

fn frame(dirty: Dirty, rows: Vec<Row>) -> Snapshot {
    Snapshot {
        cols: 1,
        rows: rows.len() as u16,
        dirty,
        has_selection: false,
        screen: ScreenState::default(),
        cells: vec![Default::default(); rows.len()],
        row_state: rows,
        graphemes: vec![],
    }
}

fn drawn() -> Snapshot {
    frame(Dirty::Partial, vec![Row::default()])
}

type Watched = Session<Box<dyn Fn()>>;

/// A session and the count of what its consumer was told.
fn watched() -> (Watched, Rc<Counter<u32>>) {
    let mut session: Watched = Session::new();
    let told = Rc::new(Counter::new(0));
    session.set_wake(Some(Box::new({
        let told = Rc::clone(&told);
        move || told.set(told.get() + 1)
    })));
    (session, told)
}

/// Open a block and draw inside it, which is a wake held back.
fn holding() -> (Watched, Rc<Counter<u32>>) {
    let (mut session, told) = watched();
    session.fed(Some(drawn()), true, 0).expect("the feed to finish");
    assert_eq!(told.get(), 0, "the block held nothing");
    (session, told)
}

#[test]
fn a_block_open_past_the_timeout_wakes_the_consumer() {
    let (mut session, told) = holding();

    assert!(
        session.wait_out_sync_block(SYNC_TIMEOUT_NANOS).is_none(),
        "a block past its time was still being waited on",
    );

    assert_eq!(told.get(), 1);
}

#[test]
fn a_block_given_up_on_holds_nothing_back() {
    let (mut session, told) = holding();
    session.wait_out_sync_block(SYNC_TIMEOUT_NANOS);

    session.fed(Some(drawn()), true, SYNC_TIMEOUT_NANOS + 1).expect("the feed to finish");
    session.fed(Some(drawn()), true, SYNC_TIMEOUT_NANOS + 2).expect("the feed to finish");

    assert_eq!(told.get(), 3, "the block held again");
    assert!(
        session.wait_out_sync_block(SYNC_TIMEOUT_NANOS + 3).is_none(),
        "a block given up on was being waited on again",
    );
}

#[test]
fn a_block_that_closes_puts_the_suppression_back() {
    let (mut session, told) = holding();
    session.wait_out_sync_block(SYNC_TIMEOUT_NANOS);

    session.fed(Some(drawn()), false, SYNC_TIMEOUT_NANOS + 1).expect("the feed to finish");
    let settled = told.get();
    session.fed(Some(drawn()), true, SYNC_TIMEOUT_NANOS + 2).expect("the feed to finish");

    assert_eq!(told.get(), settled, "a block after a given-up one was not held back");
}

#[test]
fn a_block_opened_in_the_same_breath_as_the_last_one_closed_stays_given_up_on() {
    let (mut session, told) = holding();
    session.wait_out_sync_block(SYNC_TIMEOUT_NANOS);
    let settled = told.get();

    // The round closed the block and opened the next: the mode is open at
    // its end, which is all this side sees.
    session.fed(Some(drawn()), true, SYNC_TIMEOUT_NANOS + 1).expect("the feed to finish");

    assert!(told.get() > settled, "the round closed a block and opened one");
}

#[test]
fn a_wake_a_block_is_holding_back_is_not_paid_to_a_consumer_registering() {
    let (mut session, _) = holding();

    let told = Rc::new(Counter::new(0));
    session.set_wake(Some(Box::new({
        let told = Rc::clone(&told);
        move || told.set(told.get() + 1)
    })));

    assert_eq!(told.get(), 0, "registering let a held-back wake out");

    session.fed(None, false, 1).expect("the feed to finish");
    assert_eq!(told.get(), 1, "the block let nothing out");
}

#[test]
fn a_block_that_closes_in_time_never_comes_due() {
    let (mut session, told) = holding();

    assert!(
        session.wait_out_sync_block(1).is_some_and(|left| left > 0),
        "a block that just opened was already out of time",
    );
    assert_eq!(told.get(), 0);

    session.fed(None, false, 2).expect("the feed to finish");

    assert_eq!(told.get(), 1);
    assert!(
        session.wait_out_sync_block(3).is_none(),
        "a closed block was still being waited on",
    );
}

#[test]
fn a_clipboard_write_with_no_representations_leaves_the_clipboard_alone() {
    let mut session: Watched = Session::new();

    assert!(session.clipboard_write(ClipboardTarget::Standard, &[]).is_err());

    let (events, dropped) = session.take_events();
    assert!(events.is_empty(), "a clear request reached the app");
    assert_eq!(dropped, 0);
}

#[test]
fn a_clipboard_write_that_is_utf8_still_arrives() {
    let mut session: Watched = Session::new();

    session
        .clipboard_write(
            ClipboardTarget::Standard,
            &[Representation {
                mime: b"text/plain",
                data: b"hi",
            }],
        )
        .expect("the write to be taken");

    let (events, _) = session.take_events();
    assert!(matches!(
        events.as_slice(),
        [Event::ClipboardWrite { text, .. }] if text == "hi"
    ));
}

#[test]
fn a_snapshot_dropped_before_anyone_saw_it_hands_over_its_dirty_rows() {
    let (mut session, _) = watched();
    session.publish(Some(frame(Dirty::Partial, vec![Row { flags: 1, ..Row::default() }, Row::default()])), false, 0);
    session.publish(Some(frame(Dirty::Clean, vec![Row::default(), Row { flags: 2, ..Row::default() }])), false, 1);

    let taken = session.take_snapshot().expect("a frame was published");
    assert_eq!(taken.dirty, Dirty::Partial);
    assert_eq!(taken.row_state[0].flags, 1, "the dropped frame's dirty row");
    assert_eq!(taken.row_state[1].flags, 2, "the frame's own flags");
    assert!(session.take_snapshot().is_none());
}

#[test]
fn taking_twice_reports_no_value_the_second_time() {
    let (mut session, told) = watched();
    session.publish(Some(drawn()), false, 0);
    assert_eq!(told.get(), 1);
    assert!(session.take_snapshot().is_some());
    assert!(session.take_snapshot().is_none());
}

#[test]
fn taking_before_anything_is_fed_reports_no_value() {
    let (mut session, told) = watched();
    assert!(session.take_snapshot().is_none());
    assert_eq!(told.get(), 0);
    assert_eq!(nothing_taken(KtStatus::Success, false), KtStatus::NoValue);
}

#[test]
fn a_feed_that_changes_nothing_publishes_nothing() {
    let (mut session, told) = watched();
    session.fed(None, false, 0).expect("the feed to finish");
    assert_eq!(told.get(), 0);
    assert!(session.take_snapshot().is_none());
}

#[test]
fn an_answer_that_overran_the_queue_is_reported_by_the_feed() {
    let (mut session, _) = watched();
    let full = vec![b'x'; knotty::writer::CAP];
    session.write(&full).expect("the queue had room");
    session.pty_write(b"answer");
    assert_eq!(session.fed(None, false, 0), Err(Error::WriteQueueFull));
    assert_eq!(session.fed(None, false, 1), Ok(()), "reported once");
    assert_eq!(session.write(b"more"), Err(Error::WriteQueueFull));
}

#[test]
fn the_child_s_end_is_told_even_inside_a_block() {
    let (mut session, told) = holding();
    session.note_child_exit(0, drawn(), true, 5);
    assert_eq!(told.get(), 1);
    let (events, _) = session.take_events();
    assert_eq!(events, vec![Event::ChildExited { code: 0 }]);
}

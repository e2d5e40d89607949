use std::cell::Cell;
use std::rc::Rc;

use knotty::pty::{
    after_read, busy_verdict, child_state_of, ending_step, exit_code_of, feed_outcome, pixel_extent, plan_round, wind_up, Chunk, Ready,
    Round, Ending, STILL_RUNNING,
};
use knotty::session::ChildState;
use knotty::wake::Debt;
use knotty::Error;

#[test]
fn a_round_does_what_the_wait_found_ready() {
    let ready = Ready {
        readable: true,
        writable: true,
        ended: false,
    };
    assert_eq!(
        plan_round(ready, false),
        Round {
            stop: false,
            drain: true,
            read: true
        }
    );
    assert_eq!(
        plan_round(ready, true),
        Round {
            stop: true,
            drain: false,
            read: false
        }
    );
}

#[test]
fn a_read_says_what_to_feed_and_whether_the_child_is_gone() {
    assert_eq!(after_read(Chunk::Bytes(12), false), (Some(12), false));
    assert_eq!(after_read(Chunk::Empty, true), (None, true));
    assert_eq!(after_read(Chunk::Ended, false), (None, true));
}

#[test]
fn a_full_queue_is_shed_and_anything_else_ends_the_loop() {
    assert_eq!(feed_outcome(Ok(())), Ok(()));
    assert_eq!(feed_outcome(Err(Error::WriteQueueFull)), Ok(()));
    assert_eq!(feed_outcome(Err(Error::Engine)), Err(Error::Engine));
}

#[test]
fn a_session_with_a_pty_always_has_a_child() {
    assert_eq!(child_state_of(STILL_RUNNING), ChildState::Running);
    assert_eq!(child_state_of(0), ChildState::Exited(0));
    assert_eq!(child_state_of(130), ChildState::Exited(130));
}

fn listening() -> (Debt<impl Fn()>, Rc<Cell<u32>>) {
    let told = Rc::new(Cell::new(0));
    let mut debt = Debt::new();
    debt.register(Some({
        let told = Rc::clone(&told);
        move || told.set(told.get() + 1)
    }));
    (debt, told)
}

#[test]
fn a_loop_that_panics_leaves_the_session_broken_and_tells_the_consumer_once() {
    let (mut debt, told) = listening();
    let mut broken = false;
    wind_up(false, &mut broken, &mut debt);
    assert!(broken);
    assert_eq!(told.get(), 1);
    assert!(!debt.owes());
}

#[test]
fn a_loop_that_gave_up_mid_round_leaves_the_session_broken() {
    let (mut debt, told) = listening();
    let mut broken = false;
    let gave_up: Result<(), Error> = Err(Error::Io);
    wind_up(gave_up.is_ok(), &mut broken, &mut debt);
    assert!(broken);
    assert_eq!(told.get(), 1);
}

#[test]
fn a_loop_that_returned_of_its_own_accord_leaves_the_session_alone() {
    let (mut debt, told) = listening();
    let mut broken = false;
    wind_up(true, &mut broken, &mut debt);
    assert!(!broken);
    assert_eq!(told.get(), 0);
}

#[test]
fn a_loop_that_gave_up_with_nobody_listening_leaves_the_news_owed() {
    let mut debt: Debt<fn()> = Debt::new();
    let mut broken = false;
    wind_up(false, &mut broken, &mut debt);
    assert!(broken);
    assert!(debt.owes());
}

#[test]
fn a_terminal_records_its_size_in_pixels_saturated() {
    assert_eq!(pixel_extent(80, 8), 640);
    assert_eq!(pixel_extent(0, 16), 0);
    assert_eq!(pixel_extent(1000, 100), u16::MAX);
}

#[test]
fn a_signal_is_reported_as_128_past_it() {
    assert_eq!(exit_code_of(Some(3), None), 3);
    assert_eq!(exit_code_of(None, Some(9)), 137);
    assert_eq!(exit_code_of(None, None), 128);
}

#[test]
fn an_ended_child_is_reaped_only_once_the_terminal_is_dry() {
    assert_eq!(ending_step(Chunk::Bytes(12)), Ending::Feed(12));
    assert_eq!(ending_step(Chunk::Empty), Ending::Reap);
    assert_eq!(ending_step(Chunk::Ended), Ending::Reap);
}

#[test]
fn a_foreground_that_is_not_the_shell_s_is_busy() {
    assert!(busy_verdict(Some(42), 7));
    assert!(!busy_verdict(Some(7), 7));
    assert!(!busy_verdict(None, 7));
}

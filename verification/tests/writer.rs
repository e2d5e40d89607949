use knotty::writer::{WriteQueue, CAP};
use knotty::Error;

#[test]
fn a_write_that_does_not_fit_is_refused_whole() {
    let mut queue = WriteQueue::default();
    assert!(queue.try_push(&vec![b'x'; CAP - 1]));

    assert!(!queue.try_push(b"two"), "two bytes fit in one byte of room");

    assert_eq!(
        queue.waiting(),
        CAP - 1,
        "a refused write was queued anyway"
    );
}

#[test]
fn an_answer_that_does_not_fit_is_reported_once() {
    let mut queue = WriteQueue::default();
    assert!(queue.try_push(&vec![b'x'; CAP]));

    queue.push(b"answer");

    assert!(queue.take_overrun(), "the overrun went unrecorded");
    assert!(!queue.take_overrun(), "the overrun was reported twice");
}

#[test]
fn what_a_hand_over_left_behind_stays_in_front_of_what_comes_after() {
    let mut queue = WriteQueue::default();
    queue.try_push(b"first");

    queue
        .drain_with(|bytes| {
            assert_eq!(bytes, b"first");
            Ok(2)
        })
        .expect("the hand-over to finish");
    queue.try_push(b"second");

    assert_eq!(queue.waiting(), b"rstsecond".len());
    assert_eq!(queue.take(), b"rstsecond");
}

#[test]
fn a_hand_over_that_failed_drops_nothing() {
    let mut queue = WriteQueue::default();
    queue.try_push(b"typed");

    let refused = queue.drain_with(|_| Err(Error::Io));

    assert_eq!(refused, Err(Error::Io));
    assert_eq!(queue.waiting(), b"typed".len());
    assert_eq!(queue.take(), b"typed");
}

#[test]
fn the_count_follows_the_queue() {
    let mut queue = WriteQueue::default();
    assert_eq!(queue.waiting(), 0);

    queue.try_push(b"typed");
    assert_eq!(queue.waiting(), b"typed".len());

    queue.take();
    assert_eq!(queue.waiting(), 0);
}

#[test]
fn an_answer_that_fits_is_queued_and_reports_nothing() {
    let mut queue = WriteQueue::new();
    queue.push(b"\x1b[0n");
    assert!(!queue.take_overrun());
    assert_eq!(queue.take(), b"\x1b[0n".to_vec());
}

#[test]
fn a_write_exactly_at_the_cap_fits() {
    let mut queue = WriteQueue::new();
    assert!(queue.try_push(&vec![b'x'; CAP]));
    assert!(!queue.try_push(b"y"));
    assert_eq!(queue.waiting(), CAP);
}

#[test]
fn a_hand_over_with_nothing_queued_asks_nothing() {
    let mut queue = WriteQueue::new();
    let mut asked = false;
    let drained = queue.drain_with(|_| {
        asked = true;
        Ok(0)
    });
    assert_eq!(drained, Ok(()));
    assert!(!asked);
}

#[test]
fn a_hand_over_of_everything_empties_the_queue() {
    let mut queue = WriteQueue::new();
    queue.try_push(b"all of it");
    queue.drain_with(|bytes| Ok(bytes.len())).expect("drained");
    assert_eq!(queue.waiting(), 0);
}

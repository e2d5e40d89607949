use knotty::listener::{
    clipboard_text, sanitized_answer, ClipboardRefusal, Listener, Representation, ANSWERBACK,
    CLIPBOARD_TEXT_CAP, VERSION_REPORT,
};
use knotty::queue::{ClipboardTarget, Event, EventQueue, EVENT_QUEUE_CAP};
use knotty::writer::WriteQueue;

/// One `text/plain` representation, as the engine normalizes both copy
/// sequences into.
fn plain(data: &[u8]) -> [Representation<'_>; 1] {
    [Representation {
        mime: b"text/plain",
        data,
    }]
}

#[test]
fn text_reaches_the_app() {
    assert_eq!(clipboard_text(&plain(b"hi")), Ok(Some("hi")));
}

#[test]
fn a_payload_that_is_not_utf8_is_refused() {
    assert_eq!(
        clipboard_text(&plain(b"\xff\xfe")),
        Err(ClipboardRefusal::InvalidData),
    );
}

#[test]
fn a_payload_past_the_cap_is_refused_rather_than_cut_short() {
    let payload = vec![b'x'; CLIPBOARD_TEXT_CAP + 1];

    assert_eq!(
        clipboard_text(&plain(&payload)),
        Err(ClipboardRefusal::Denied),
    );
    assert!(
        clipboard_text(&plain(&payload[1..])).is_ok(),
        "the cap itself was refused",
    );
}

#[test]
fn a_write_offering_nothing_is_refused() {
    assert_eq!(clipboard_text(&[]), Err(ClipboardRefusal::Unsupported));
}

#[test]
fn a_write_offering_no_plain_text_is_refused() {
    let offered = [Representation {
        mime: b"image/png",
        data: b"\x89PNG",
    }];

    assert_eq!(clipboard_text(&offered), Err(ClipboardRefusal::Unsupported));
}

#[test]
fn an_empty_payload_leaves_the_clipboard_alone() {
    assert_eq!(clipboard_text(&plain(b"")), Ok(None));
}

#[test]
fn a_title_report_goes_out_empty() {
    assert_eq!(
        sanitized_answer(b"\x1b]l; rm -rf /\x1b\\"),
        b"\x1b]l\x1b\\".to_vec(),
    );
}

#[test]
fn every_other_answer_goes_out_as_it_is() {
    let answer = b"\x1b[?62;22c";

    assert_eq!(sanitized_answer(answer), answer.to_vec());
}

#[test]
fn the_first_plain_text_representation_is_the_one_taken() {
    let offered = [
        Representation {
            mime: b"image/png",
            data: b"\x89PNG",
        },
        Representation {
            mime: b"text/plain",
            data: b"first",
        },
        Representation {
            mime: b"text/plain",
            data: b"second",
        },
    ];
    assert_eq!(clipboard_text(&offered), Ok(Some("first")));
}

#[test]
fn a_prefix_alone_is_a_title_report_with_nothing_in_it() {
    assert_eq!(sanitized_answer(b"\x1b]l"), b"\x1b]l\x1b\\".to_vec());
    assert_eq!(sanitized_answer(b"\x1b]"), b"\x1b]".to_vec());
    assert_eq!(sanitized_answer(b""), Vec::<u8>::new());
}

#[test]
fn the_constant_answers_name_knotty() {
    let listener = Listener::new(WriteQueue::new(), EventQueue::new());
    assert_eq!(listener.answerback, ANSWERBACK);
    assert_eq!(listener.version, VERSION_REPORT);
    assert_eq!(ANSWERBACK, "knotty");
    assert_eq!(VERSION_REPORT, "knotty 0.1.0");
}

#[test]
fn an_answer_is_sanitized_on_its_way_to_the_child() {
    let mut listener = Listener::new(WriteQueue::new(), EventQueue::new());
    listener.pty_write(b"\x1b]lsecret\x1b\\");
    listener.pty_write(b"\x1b[?62;22c");
    assert_eq!(listener.take_writes(), b"\x1b]l\x1b\\\x1b[?62;22c".to_vec());
    assert_eq!(listener.waiting(), 0);
}

#[test]
fn a_bell_and_a_clipboard_write_arrive_in_order() {
    let mut listener = Listener::new(WriteQueue::new(), EventQueue::new());
    listener.bell();
    assert_eq!(
        listener.clipboard_write(ClipboardTarget::Primary, &plain(b"hi")),
        Ok(())
    );
    assert!(listener.take_arrival());
    assert!(!listener.take_arrival());
    let (events, dropped) = listener.take_events();
    assert_eq!(dropped, 0);
    assert_eq!(
        events,
        vec![
            Event::Bell,
            Event::ClipboardWrite {
                target: ClipboardTarget::Primary,
                text: "hi".to_owned()
            }
        ]
    );
}

#[test]
fn a_refused_clipboard_write_queues_nothing() {
    let mut listener = Listener::new(WriteQueue::new(), EventQueue::new());
    assert_eq!(
        listener.clipboard_write(ClipboardTarget::Standard, &plain(b"\xff")),
        Err(ClipboardRefusal::InvalidData)
    );
    assert_eq!(
        listener.clipboard_write(ClipboardTarget::Standard, &plain(b"")),
        Ok(())
    );
    let (events, dropped) = listener.take_events();
    assert!(events.is_empty());
    assert_eq!(dropped, 0);
}

#[test]
fn events_past_the_cap_are_counted_rather_than_kept() {
    let mut listener = Listener::new(WriteQueue::new(), EventQueue::new());
    for _ in 0..EVENT_QUEUE_CAP + 3 {
        listener.bell();
    }
    let (events, dropped) = listener.take_events();
    assert_eq!(events.len(), EVENT_QUEUE_CAP);
    assert_eq!(dropped, 3);
    let (events, dropped) = listener.take_events();
    assert!(events.is_empty());
    assert_eq!(dropped, 0, "the count empties with the queue");
}

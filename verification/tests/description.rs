use knotty::boundary::KtSnapshot;
use knotty::description::{describe, FORMAT};
use knotty::queue::{ClipboardTarget, Event};
use knotty::session::ChildState;
use knotty::snapshot::{Cell, Cursor, CursorShape, Dirty, Rgb, Row, ScreenState, Snapshot, Underline};

fn frame() -> Snapshot {
    let white = Rgb { r: 0xff, g: 0xff, b: 0xff };
    let black = Rgb { r: 0, g: 0, b: 0 };
    let cell = |codepoint: u32, attributes: u16| Cell {
        codepoint,
        foreground: white,
        background: black,
        attributes,
        underline: Underline::NoUnderline,
    };
    Snapshot {
        cols: 3,
        rows: 1,
        dirty: Dirty::Partial,
        has_selection: true,
        screen: ScreenState {
            cursor: Cursor {
                x: 1,
                y: 0,
                visible: true,
                shape: CursorShape::Bar,
            },
            title: "say \"hi\"".to_owned(),
            pwd: "/tmp".to_owned(),
        },
        cells: vec![cell(0x41, 1), cell(0, 1024), cell(0x7, 0)],
        row_state: vec![Row {
            flags: 1 | 4,
            selection_start: 0,
            selection_end: 1,
        }],
        graphemes: vec![2, 0x65, 0x301],
    }
}

#[test]
fn a_description_says_everything_a_consumer_got() {
    let snapshot = KtSnapshot::stamped(frame(), ChildState::Exited(3), false);
    let copies = vec![Some(b"copied".to_vec()), None];
    let events = vec![
        Event::Bell,
        Event::ClipboardWrite {
            target: ClipboardTarget::Selection,
            text: "a\\b".to_owned(),
        },
        Event::ChildExited { code: 3 },
    ];
    let text = describe(&snapshot, b"\x1b[0n", &copies, &events, 2, 5);
    let expected = "knotty-golden 4\n\
wakes 5\n\
writes \"\\x1b[0n\"\n\
copies 2\n\
copy 0 \"copied\"\n\
copy 1 none\n\
events 3 dropped 2\n\
event 0 bell\n\
event 1 clipboard-write selection \"a\\\\b\"\n\
event 2 child-exited 3\n\
size 3 1\n\
child exited 3\n\
session ok\n\
dirty partial\n\
selection present\n\
cursor 1 0 visible bar\n\
title \"say \\\"hi\\\"\"\n\
pwd \"/tmp\"\n\
graphemes 3\n\
row 0 flags dirty selection 0 1\n\
text \"Ae.\"\n\
cell 0 0 ffffff 000000 0001 none 0041\n\
cell 0 1 ffffff 000000 0400 none 0065 0301\n\
cell 0 2 ffffff 000000 0000 none 0007\n";
    assert_eq!(text, expected);
}

#[test]
fn the_format_is_the_first_line() {
    assert_eq!(FORMAT, "knotty-golden 4");
    let snapshot = KtSnapshot::stamped(frame(), ChildState::NoChild, true);
    let text = describe(&snapshot, b"", &[], &[], 0, 0);
    assert!(text.starts_with("knotty-golden 4\nwakes 0\nwrites \"\"\ncopies 0\nevents 0 dropped 0\n"));
    assert!(text.contains("\nchild none\nsession broken\n"));
}

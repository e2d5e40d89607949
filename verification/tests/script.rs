use knotty::key::{Key, KeyAction};
use knotty::mouse::{MouseAction, MouseButton};
use knotty::golden::quoted_bytes;
use knotty::script::{parse, unquote, Step};
use knotty::session::SelectionUnit;

fn one(line: &str) -> Step {
    let mut steps = parse(line).expect("the line parses");
    assert_eq!(steps.len(), 1);
    steps.remove(0)
}

fn refusal(script: &str) -> String {
    parse(script).expect_err("the script is refused")
}

#[test]
fn out_feeds_the_bytes_it_quotes() {
    match one("out \"\\x1b[?1h\"") {
        Step::Out(bytes) => assert_eq!(bytes, b"\x1b[?1h".to_vec()),
        other => panic!("{other:?}"),
    }
}

#[test]
fn a_quoted_character_is_its_utf8() {
    match one("key A alt consumed=alt \"å\"") {
        Step::Key(key) => {
            assert_eq!(key.key, Key::A);
            assert_eq!(key.action, KeyAction::Press);
            assert_eq!(key.mods, 4);
            assert_eq!(key.consumed_mods, 4);
            assert_eq!(key.text, "å".as_bytes().to_vec());
            assert!(!key.composing);
        }
        other => panic!("{other:?}"),
    }
}

#[test]
fn key_words_set_what_they_name() {
    match one("key Enter composing release ctrl,shift super") {
        Step::Key(key) => {
            assert_eq!(key.key, Key::Enter);
            assert_eq!(key.action, KeyAction::Release);
            assert!(key.composing);
            assert_eq!(key.mods, 1 | 2 | 8);
            assert!(key.text.is_empty());
        }
        other => panic!("{other:?}"),
    }
}

#[test]
fn blank_lines_and_comments_are_skipped_and_lines_counted() {
    let steps = parse("\n  # a comment\ncopy\n   \nscroll -2\nfocus lost\n").expect("parses");
    assert_eq!(steps.len(), 3);
    assert!(matches!(steps[0], Step::Copy));
    assert!(matches!(steps[1], Step::Scroll { lines: -2 }));
    assert!(matches!(steps[2], Step::Focus { gained: false }));
    assert_eq!(
        refusal("copy\n\nbogus\n"),
        "line 3: bogus is not a directive this format knows"
    );
}

#[test]
fn resize_takes_four_numbers() {
    assert!(matches!(
        one("resize 10 4 8 16"),
        Step::Resize {
            cols: 10,
            rows: 4,
            cell_width: 8,
            cell_height: 16
        }
    ));
    assert_eq!(
        refusal("resize 10 4"),
        "line 1: resize takes cols, rows, cell width and cell height, not 2 words"
    );
    assert_eq!(
        refusal("resize 10 4 8 16 \"x\""),
        "line 1: resize takes numbers and nothing else"
    );
    assert_eq!(
        refusal("resize 70000 4 8 16"),
        "line 1: 70000 is not a number this format can use"
    );
}

#[test]
fn mouse_takes_an_action_a_button_a_cell_and_modifiers() {
    assert!(matches!(
        one("mouse press left 3 1 shift"),
        Step::Mouse {
            action: MouseAction::Press,
            button: MouseButton::Left,
            mods: 1,
            x: 3,
            y: 1
        }
    ));
    assert!(matches!(
        one("mouse motion none 0 0"),
        Step::Mouse {
            action: MouseAction::Motion,
            button: MouseButton::NoButton,
            mods: 0,
            ..
        }
    ));
    assert_eq!(
        refusal("mouse click left 3 1"),
        "line 1: a mouse action is press, release or motion, not click"
    );
    assert_eq!(
        refusal("mouse press"),
        "line 1: a mouse button is none, left, right or middle, not nothing"
    );
    assert_eq!(refusal("mouse press left 3"), "line 1: mouse names no row");
}

#[test]
fn wheel_takes_both_deltas_and_a_cell() {
    assert!(matches!(
        one("wheel 0 -2 3 1"),
        Step::Wheel {
            delta_x: 0,
            delta_y: -2,
            x: 3,
            y: 1,
            mods: 0
        }
    ));
    assert!(matches!(
        one("wheel +1 -2147483648 0 0 alt"),
        Step::Wheel {
            delta_x: 1,
            delta_y: -2147483648,
            mods: 4,
            ..
        }
    ));
    assert_eq!(refusal("wheel"), "line 1: wheel names no sideways delta");
    assert_eq!(
        refusal("wheel 0 1 -1 0"),
        "line 1: -1 is not a number this format can use"
    );
}

#[test]
fn select_takes_two_cells_a_unit_and_maybe_a_block() {
    assert!(matches!(
        one("select 0 0 5 0 word"),
        Step::Select {
            anchor: (0, 0),
            cell: (5, 0),
            unit: SelectionUnit::Word,
            rectangle: false
        }
    ));
    assert!(matches!(
        one("select 1 2 3 4 line rectangle"),
        Step::Select {
            unit: SelectionUnit::Line,
            rectangle: true,
            ..
        }
    ));
    assert_eq!(
        refusal("select 0 0 5 0 page"),
        "line 1: a selection unit is cell, word or line, not page"
    );
    assert_eq!(
        refusal("select 0 0 5 0 cell round"),
        "line 1: round is not a word select knows"
    );
}

#[test]
fn each_refusal_says_what_it_refused() {
    assert_eq!(refusal("out"), "line 1: out says nothing to feed");
    assert_eq!(
        refusal("out now \"x\""),
        "line 1: out takes bytes and nothing else, not now"
    );
    assert_eq!(refusal("copy all"), "line 1: copy takes nothing, not all");
    assert_eq!(refusal("scroll"), "line 1: scroll names no count of lines");
    assert_eq!(refusal("focus"), "line 1: focus is gained or lost, not nothing");
    assert_eq!(refusal("key"), "line 1: key names no key");
    assert_eq!(refusal("key B"), "line 1: B is not a key this format knows");
    assert_eq!(refusal("key A hyper"), "line 1: hyper is not a word this format knows");
    assert_eq!(
        refusal("\"only\""),
        "line 1: a line with only a quoted run says nothing to do with it"
    );
}

#[test]
fn a_quoted_run_is_read_back_as_written() {
    match one(r#"out "a\\b\"c\x7fd\x+ae\xf""#) {
        Step::Out(bytes) => assert_eq!(bytes, b"a\\b\"c\x7fd\x0ae\x0f".to_vec()),
        other => panic!("{other:?}"),
    }
    assert_eq!(refusal(r#"out "\q""#), r#"line 1: \q is not an escape this format knows"#);
    assert_eq!(refusal(r#"out "\xzz""#), r#"line 1: \xzz is not a byte"#);
    assert_eq!(refusal("out \"abc\\"), "line 1: \"abc\\ is not a quoted run of bytes");
    assert_eq!(refusal("out \"ab\\\""), "line 1: a backslash at the end escapes nothing");
}

#[test]
fn quoted_bytes_read_back_as_the_same_bytes() {
    let all: Vec<u8> = (0..=255u8).collect();
    for bytes in [&b""[..], b"plain", b"\x1b[0m\"quoted\"\\", &all[..]] {
        assert_eq!(unquote(&quoted_bytes(bytes)), Ok(bytes.to_vec()));
    }
}

#[test]
fn a_run_without_its_quotes_is_refused() {
    assert!(unquote("abc").is_err());
    assert_eq!(unquote("\"\u{e5}\""), Ok("\u{e5}".as_bytes().to_vec()));
}

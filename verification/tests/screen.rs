use knotty::screen::{decoded_path, path_of, percent_decoded, without_control_characters, worth_publishing};
use knotty::snapshot::{Cursor, CursorShape, Dirty, ScreenState};

#[test]
fn control_characters_are_taken_out_of_a_title() {
    assert_eq!(without_control_characters("a\u{1b}]b\nc\u{7f}d\u{9b}e"), "a]bcde");
    assert_eq!(without_control_characters("plain é"), "plain é");
}

#[test]
fn a_file_uri_is_read_as_its_path() {
    assert_eq!(path_of("file://host/home/me/My%20Docs"), "/home/me/My Docs");
    assert_eq!(path_of("file:///tmp"), "/tmp");
    assert_eq!(path_of("/bare/path"), "/bare/path");
}

#[test]
fn what_names_no_absolute_path_publishes_nothing() {
    assert_eq!(path_of("relative/dir"), "");
    assert_eq!(path_of("file://host"), "");
    assert_eq!(path_of("file:///%ff"), "");
    assert_eq!(decoded_path("file://host"), None);
}

#[test]
fn a_percent_not_followed_by_two_hex_digits_stands_for_itself() {
    assert_eq!(percent_decoded("100%"), Some("100%".to_owned()));
    assert_eq!(percent_decoded("%4"), Some("%4".to_owned()));
    assert_eq!(percent_decoded("%41%42"), Some("AB".to_owned()));
    assert_eq!(percent_decoded("%C3%A9"), Some("é".to_owned()));
    assert_eq!(percent_decoded("%ff"), None);
}

#[test]
fn a_capture_is_worth_publishing_only_when_something_changed() {
    let screen = ScreenState {
        cursor: Cursor {
            x: 0,
            y: 0,
            visible: true,
            shape: CursorShape::Block,
        },
        title: "t".to_owned(),
        pwd: String::new(),
    };
    let moved = ScreenState {
        title: "u".to_owned(),
        ..screen.clone()
    };
    assert!(!worth_publishing(Dirty::Clean, &screen, &screen.clone(), false));
    assert!(worth_publishing(Dirty::Clean, &screen, &screen.clone(), true));
    assert!(worth_publishing(Dirty::Partial, &screen, &screen.clone(), false));
    assert!(worth_publishing(Dirty::Clean, &moved, &screen, false));
}

#[test]
fn a_reported_directory_is_its_absolute_path_or_nothing() {
    assert_eq!(path_of("file://host/tmp/a%20b"), "/tmp/a b");
    assert_eq!(path_of("/home/u%20x"), "/home/u%20x");
    assert_eq!(path_of("file://host"), "");
    assert_eq!(path_of("rel/dir"), "");
}

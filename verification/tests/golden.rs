use knotty::boundary::{KtChildState, KtSessionState};
use knotty::golden::{
    child_name, clipboard_target_name, diff, dirty_name, lines, push_decimal, push_signed, quoted,
    quoted_bytes, rgb, same_text, session_name, shape_name, underline_name,
};
use knotty::queue::ClipboardTarget;
use knotty::snapshot::{CursorShape, Dirty, Underline};

#[test]
fn queued_bytes_are_readable_where_they_can_be_and_escaped_where_they_cannot() {
    assert_eq!(quoted_bytes(b"\x1b]l\x1b\\"), r#""\x1b]l\x1b\\""#);
    assert_eq!(quoted_bytes("é".as_bytes()), r#""\xc3\xa9""#);
    assert_eq!(quoted_bytes(b"say \"hi\""), r#""say \"hi\"""#);
}

#[test]
fn identical_descriptions_do_not_differ() {
    let same = "knotty-golden 1\nsize 2 1\ncell 0 0 x\n";
    assert!(diff(same, same).is_none());
}

#[test]
fn a_report_names_the_line_and_shows_both_sides() {
    let report = diff(
        "knotty-golden 1\nsize 2 1\ncell 0 1 x\n",
        "knotty-golden 1\nsize 2 1\ncell 0 1 y\n",
    )
    .expect("the descriptions differ");

    assert!(report.contains("line 3:"), "{report}");
    assert!(report.contains("golden   cell 0 1 x"), "{report}");
    assert!(report.contains("produced cell 0 1 y"), "{report}");
}

#[test]
fn a_report_shows_a_line_only_one_side_has() {
    let report = diff("same\nextra\n", "same\n").expect("the descriptions differ");

    assert!(report.contains("line 2:"), "{report}");
    assert!(report.contains("golden   extra"), "{report}");
    assert!(report.contains("produced <missing>"), "{report}");
}

#[test]
fn a_golden_from_another_encoding_says_so_instead_of_diffing() {
    let report =
        diff("knotty-golden 0\nsize 2 1\n", "knotty-golden 1\nsize 2 1\n").expect("differ");

    assert!(report.contains("different format"), "{report}");
    assert!(!report.contains("line 2"), "{report}");
}

#[test]
fn a_report_stops_listing_and_says_how_many_are_left() {
    let head = "knotty-golden 1\n";
    let golden: String =
        head.to_owned() + &(0..40).map(|l| format!("line {l}\n")).collect::<String>();
    let produced: String =
        head.to_owned() + &(0..40).map(|l| format!("other {l}\n")).collect::<String>();

    let report = diff(&golden, &produced).expect("the descriptions differ");
    assert!(report.contains("and 28 more lines"), "{report}");
}

#[test]
fn a_whole_report_reads_as_written() {
    let report = diff("a\nb\nc\n", "a\nx\nc\nd\n").expect("differ");
    assert_eq!(
        report,
        "the screen does not match the golden\n  line 2:\n    golden   b\n    produced x\n  line 4:\n    golden   <missing>\n    produced d\n"
    );
}

#[test]
fn a_format_report_reads_as_written() {
    let report = diff("", "knotty-golden 4\n").expect("differ");
    assert_eq!(
        report,
        "the golden was written in a different format\n  golden   <empty>\n  produced knotty-golden 4\n"
    );
}

#[test]
fn a_final_newline_is_no_line_of_its_own_but_still_a_difference() {
    let report = diff("a\nb", "a\nb\n").expect("the texts differ");
    assert_eq!(report, "the screen does not match the golden\n");
}

#[test]
fn lines_are_split_as_a_text_file_counts_them() {
    assert_eq!(lines("a\r\nb\n\nc"), vec!["a", "b", "", "c"]);
    assert_eq!(lines(""), Vec::<String>::new());
    assert_eq!(lines("\n"), vec![""]);
    assert_eq!(lines("a\r"), vec!["a\r"]);
}

#[test]
fn texts_are_compared_as_texts() {
    assert!(same_text("é", "é"));
    assert!(!same_text("e", "é"));
    assert!(!same_text("ab", "a"));
}

#[test]
fn text_is_quoted_with_its_quotes_and_backslashes_escaped() {
    assert_eq!(quoted(r#"a "b" \c"#), r#""a \"b\" \\c""#);
    assert_eq!(quoted("é"), "\"é\"");
    assert_eq!(quoted(""), "\"\"");
}

#[test]
fn a_colour_is_six_lowercase_hex_digits() {
    assert_eq!(rgb(0x1e, 0xAB, 0x00), "1eab00");
    assert_eq!(rgb(255, 255, 255), "ffffff");
}

#[test]
fn numbers_are_written_in_decimal() {
    let mut out = String::new();
    push_decimal(&mut out, 0);
    out.push(' ');
    push_decimal(&mut out, 1234567890123);
    out.push(' ');
    push_signed(&mut out, -137);
    assert_eq!(out, "0 1234567890123 -137");
}

#[test]
fn every_name_is_the_one_a_golden_uses() {
    assert_eq!(clipboard_target_name(ClipboardTarget::Standard), "standard");
    assert_eq!(clipboard_target_name(ClipboardTarget::Selection), "selection");
    assert_eq!(clipboard_target_name(ClipboardTarget::Primary), "primary");
    assert_eq!(child_name(KtChildState::NoChild, 7), "none");
    assert_eq!(child_name(KtChildState::Running, 0), "running");
    assert_eq!(child_name(KtChildState::Exited, -9), "exited -9");
    assert_eq!(child_name(KtChildState::Exited, 137), "exited 137");
    assert_eq!(session_name(KtSessionState::Working), "ok");
    assert_eq!(session_name(KtSessionState::Broken), "broken");
    assert_eq!(dirty_name(Dirty::Clean), "clean");
    assert_eq!(dirty_name(Dirty::Partial), "partial");
    assert_eq!(dirty_name(Dirty::Full), "full");
    assert_eq!(shape_name(CursorShape::BlockHollow), "block-hollow");
    assert_eq!(shape_name(CursorShape::Bar), "bar");
    assert_eq!(underline_name(Underline::NoUnderline), "none");
    assert_eq!(underline_name(Underline::Curly), "curly");
}

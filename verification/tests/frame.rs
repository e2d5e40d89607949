use knotty::frame::{
    attributes_of, cell_of, color_verdict, cursor_of, row_of, structure_of, Content, Defaults, Frame,
    Glyph, Style, Width,
};
use knotty::snapshot::{Attribute, CursorShape, Dirty, Rgb, Row, ScreenState, Underline};
use knotty::terminal::EngineAnswer;
use knotty::Error;

const FG: Rgb = Rgb { r: 1, g: 2, b: 3 };
const BG: Rgb = Rgb { r: 4, g: 5, b: 6 };

fn plain() -> Style {
    Style {
        bold: false,
        faint: false,
        italic: false,
        blink: false,
        inverse: false,
        invisible: false,
        strikethrough: false,
        overline: false,
    }
}

#[test]
fn each_style_attribute_lands_in_its_own_bit() {
    let cases: [(fn(&mut Style), Attribute); 8] = [
        (|s| s.bold = true, Attribute::Bold),
        (|s| s.faint = true, Attribute::Faint),
        (|s| s.italic = true, Attribute::Italic),
        (|s| s.blink = true, Attribute::Blink),
        (|s| s.inverse = true, Attribute::Inverse),
        (|s| s.invisible = true, Attribute::Invisible),
        (|s| s.strikethrough = true, Attribute::Strikethrough),
        (|s| s.overline = true, Attribute::Overline),
    ];
    for (set, attribute) in cases {
        let mut style = plain();
        set(&mut style);
        assert_eq!(attributes_of(&style), attribute.bit());
    }
    let all = Style {
        bold: true,
        faint: true,
        italic: true,
        blink: true,
        inverse: true,
        invisible: true,
        strikethrough: true,
        overline: true,
    };
    assert_eq!(attributes_of(&all), 0b1111_1111);
}

#[test]
fn a_wide_character_marks_its_two_cells_differently() {
    assert_eq!(structure_of(Width::Wide), Attribute::Wide.bit());
    assert_eq!(structure_of(Width::SpacerTail), Attribute::WideTail.bit());
    assert_eq!(structure_of(Width::Narrow), 0);
    assert_eq!(structure_of(Width::SpacerHead), 0);
}

#[test]
fn a_row_says_whether_it_runs_on_into_the_next() {
    assert_eq!(
        row_of(true, true, Some((2, 5))),
        Row {
            flags: 7,
            selection_start: 2,
            selection_end: 5
        }
    );
    assert_eq!(row_of(false, false, None), Row::default());
    assert_eq!(row_of(false, true, None).flags, 2);
}

#[test]
fn a_cursor_outside_the_viewport_is_not_drawn() {
    let inside = cursor_of(true, 3, 4, true, CursorShape::Bar);
    assert_eq!((inside.x, inside.y, inside.visible), (3, 4, true));
    let outside = cursor_of(false, 3, 4, true, CursorShape::Bar);
    assert_eq!((outside.x, outside.y, outside.visible), (0, 0, false));
}

#[test]
fn every_colour_a_cell_does_not_carry_is_the_default() {
    let defaults = Defaults { foreground: FG, background: BG };
    let red = Rgb { r: 255, g: 0, b: 0 };
    let cell = cell_of(
        Content::Codepoint(0x41),
        Some(red),
        None,
        defaults,
        &plain(),
        Width::Narrow,
        Underline::Curly,
    );
    assert_eq!(cell.foreground, red);
    assert_eq!(cell.background, BG);
    assert_eq!(cell.codepoint, 0x41);
    assert_eq!(cell.underline, Underline::Curly);
    assert_eq!(color_verdict(EngineAnswer::Success, red), Ok(Some(red)));
    assert_eq!(color_verdict(EngineAnswer::InvalidValue, red), Ok(None));
    assert_eq!(color_verdict(EngineAnswer::NoValue, red), Ok(None));
    assert_eq!(color_verdict(EngineAnswer::Refused, red), Err(Error::Engine));
}

#[test]
fn clusters_that_do_not_fit_move_to_the_grapheme_table() {
    let defaults = Defaults { foreground: FG, background: BG };
    let mut frame = Frame::new(2, 1, defaults);
    let first = frame.spill(&[0x65, 0x301]).expect("room in the table");
    let second = frame.spill(&[0x1F469, 0x200D, 0x1F4BB]).expect("room in the table");
    assert_eq!(first, 0);
    assert_eq!(second, 3);
    let cell = cell_of(
        Content::Spilled(second),
        None,
        None,
        defaults,
        &plain(),
        Width::Wide,
        Underline::NoUnderline,
    );
    assert_eq!(cell.attributes, Attribute::Overflow.bit() | Attribute::Wide.bit());
    frame.set_cell(0, 1, cell);
    frame.set_row(0, row_of(true, false, None));
    let snapshot = frame.finish(Dirty::Full, ScreenState::default());
    assert_eq!(snapshot.graphemes, vec![2, 0x65, 0x301, 3, 0x1F469, 0x200D, 0x1F4BB]);
    assert_eq!(snapshot.cells[1].codepoint, 3);
    assert_eq!(snapshot.cells[0].foreground, FG, "an untouched cell is blank in the defaults");
    assert_eq!(snapshot.cells[0].codepoint, 0);
    assert_eq!(snapshot.row_state, vec![Row { flags: 1, ..Row::default() }]);
    assert_eq!((snapshot.cols, snapshot.rows, snapshot.dirty), (2, 1, Dirty::Full));
    assert!(!snapshot.has_selection);
}

#[test]
fn a_cell_put_as_a_cluster_points_at_its_whole_run() {
    let defaults = Defaults { foreground: FG, background: BG };
    let mut frame = Frame::new(3, 1, defaults);
    let cluster = [0x65, 0x301];
    assert_eq!(
        frame.put(0, 2, Glyph::Cluster(&cluster), None, None, defaults, &plain(), Width::Narrow, Underline::Single),
        Ok(())
    );
    assert_eq!(
        frame.put(0, 0, Glyph::Codepoint(0x41), None, None, defaults, &plain(), Width::Narrow, Underline::NoUnderline),
        Ok(())
    );
    let snapshot = frame.finish(Dirty::Partial, ScreenState::default());
    assert_eq!(snapshot.graphemes, vec![2, 0x65, 0x301]);
    let spilled = snapshot.cells[2];
    assert_eq!(spilled.attributes, Attribute::Overflow.bit());
    let index = spilled.codepoint as usize;
    let len = snapshot.graphemes[index] as usize;
    assert_eq!(&snapshot.graphemes[index + 1..index + 1 + len], &cluster);
    assert_eq!(snapshot.cells[0].codepoint, 0x41);
    assert_eq!(snapshot.cells[0].attributes & Attribute::Overflow.bit(), 0);
}

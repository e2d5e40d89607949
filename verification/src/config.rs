//! The configuration's schema as plain values, and the one value in it the
//! file writes as text that nobody past here should parse again: a colour.
//!
//! Reading the file and turning it into JSON is the application's; what a
//! colour is, and which values each key may take, is this crate's.

use vstd::prelude::*;
use vstd::string::StringSliceAdditionalSpecFns;

use crate::screen::{hex_digit_value, hex_value, is_hex, is_hex_digit};

verus! {

/// A colour, written `#rrggbb` and carried as three numbers.
#[derive(Clone, Copy, Debug, PartialEq, Eq, Structural)]
pub struct Color {
    /// Red.
    pub r: u8,
    /// Green.
    pub g: u8,
    /// Blue.
    pub b: u8,
}

/// The byte two hex digits spell.
pub open spec fn hex_pair(high: u8, low: u8) -> u8 {
    (hex_value(high) * 16 + hex_value(low)) as u8
}

/// The colour `text` writes, if it is a `#` and six hex digits and nothing
/// else.
pub open spec fn color_of(text: Seq<u8>) -> Option<Color> {
    if text.len() == 7 && text[0] == 0x23u8 && forall|i: int| 1 <= i < 7 ==> is_hex(#[trigger] text[i]) {
        Some(Color { r: hex_pair(text[1], text[2]), g: hex_pair(text[3], text[4]), b: hex_pair(text[5], text[6]) })
    } else {
        None
    }
}

impl Color {
    /// Read a colour written `#rrggbb`, in either case.
    pub fn parse(text: &str) -> (color: Option<Color>)
        ensures
            color == color_of(text.spec_bytes()),
    {
        let bytes = text.as_bytes();
        if bytes.len() != 7 || bytes[0] != 0x23 {
            return None;
        }
        let mut i: usize = 1;
        while i < 7
            invariant
                bytes@ == text.spec_bytes(),
                bytes@.len() == 7,
                1 <= i <= 7,
                forall|j: int| 1 <= j < i ==> is_hex(#[trigger] bytes@[j]),
            decreases 7 - i,
        {
            if !is_hex_digit(bytes[i]) {
                return None;
            }
            i = i + 1;
        }
        Some(
            Color {
                r: hex_digit_value(bytes[1]) * 16 + hex_digit_value(bytes[2]),
                g: hex_digit_value(bytes[3]) * 16 + hex_digit_value(bytes[4]),
                b: hex_digit_value(bytes[5]) * 16 + hex_digit_value(bytes[6]),
            },
        )
    }
}

/// The colours, each absent until the user writes one. Absent stands for
/// the terminal's own colour, which is the engine's to say.
#[derive(Clone, Copy, Debug, PartialEq, Eq)]
pub struct Theme {
    /// Background.
    pub background: Option<Color>,
    /// Foreground.
    pub foreground: Option<Color>,
    /// Cursor.
    pub cursor: Option<Color>,
    /// The sixteen palette colours, all or none.
    pub palette: Option<[Color; 16]>,
}

impl Default for Theme {
    /// No colour written: every one is the terminal's own.
    fn default() -> (theme: Self)
        ensures
            theme.background is None,
            theme.foreground is None,
            theme.cursor is None,
            theme.palette is None,
    {
        Theme { background: None, foreground: None, cursor: None, palette: None }
    }
}

/// Which Option key sends Meta rather than making a character.
#[derive(Clone, Copy, Debug, PartialEq, Eq, Structural)]
pub enum OptionAsMeta {
    /// The left one.
    Left,
    /// The right one.
    Right,
    /// Both.
    Both,
    /// Neither: both make characters.
    Neither,
}

impl Default for OptionAsMeta {
    /// Both, unless the file says otherwise.
    fn default() -> (which: Self)
        ensures
            which == OptionAsMeta::Both,
    {
        OptionAsMeta::Both
    }
}

/// The terminal's own settings.
#[derive(Clone, Copy, Debug, PartialEq, Eq, Structural)]
pub struct Terminal {
    /// Which Option key is Meta.
    pub option_as_meta: OptionAsMeta,
}

impl Default for Terminal {
    /// Both Option keys are Meta.
    fn default() -> (terminal: Self)
        ensures
            terminal.option_as_meta == OptionAsMeta::Both,
    {
        Terminal { option_as_meta: OptionAsMeta::Both }
    }
}

/// What the bell does.
#[derive(Clone, Copy, Debug, PartialEq, Eq, Structural)]
pub enum BellMode {
    /// A flash of the window.
    Visual,
    /// A sound.
    Sound,
    /// The dock icon bounces.
    Bounce,
    /// Nothing.
    Off,
}

impl Default for BellMode {
    /// Visual: there is no sound that would be the obvious one.
    fn default() -> (mode: Self)
        ensures
            mode == BellMode::Visual,
    {
        BellMode::Visual
    }
}

/// The bell's settings.
#[derive(Clone, Copy, Debug, PartialEq, Eq, Structural)]
pub struct Bell {
    /// What it does.
    pub mode: BellMode,
}

impl Default for Bell {
    /// A visual bell.
    fn default() -> (bell: Self)
        ensures
            bell.mode == BellMode::Visual,
    {
        Bell { mode: BellMode::Visual }
    }
}

/// What a load came to. Both halves are always there: a file that does not
/// parse comes back as the defaults with a diagnostic beside them, because a
/// window opens either way.
#[derive(Clone, Debug, PartialEq, Eq)]
pub struct Loaded {
    /// The configuration as one JSON object.
    pub json: String,
    /// What went wrong, or none when nothing did.
    pub diagnostic: Option<String>,
}

/// The lower-case hex digit for a value below sixteen.
pub open spec fn hex_digit_of(value: int) -> u8 {
    if value < 10 {
        (0x30 + value) as u8
    } else {
        (0x61 + value - 10) as u8
    }
}

/// How a colour is written: `#`, then red, green and blue, each as two
/// lower-case hex digits, high digit first.
pub open spec fn color_text(color: Color) -> Seq<u8> {
    seq![
        0x23u8,
        hex_digit_of(color.r as int / 16),
        hex_digit_of(color.r as int % 16),
        hex_digit_of(color.g as int / 16),
        hex_digit_of(color.g as int % 16),
        hex_digit_of(color.b as int / 16),
        hex_digit_of(color.b as int % 16),
    ]
}

/// A value below sixteen written as a hex digit reads back as itself.
proof fn lemma_hex_digit_reads_back(value: int)
    requires
        0 <= value < 16,
    ensures
        is_hex(hex_digit_of(value)),
        hex_value(hex_digit_of(value)) == value,
{
}

/// A byte written as two hex digits, high digit first, reads back as itself.
proof fn lemma_pair_reads_back(value: u8)
    ensures
        is_hex(hex_digit_of(value as int / 16)),
        is_hex(hex_digit_of(value as int % 16)),
        hex_pair(hex_digit_of(value as int / 16), hex_digit_of(value as int % 16)) == value,
{
    let v = value as int;
    lemma_hex_digit_reads_back(v / 16);
    lemma_hex_digit_reads_back(v % 16);
    assert((v / 16) * 16 + v % 16 == v);
}

/// Every colour reads back from how it is written, each channel from its
/// own two digits: red from the first pair, green from the second, blue from
/// the third.
pub proof fn law_color_reads_back_from_its_text(color: Color)
    ensures
        color_of(color_text(color)) == Some(color),
{
    let text = color_text(color);
    lemma_pair_reads_back(color.r);
    lemma_pair_reads_back(color.g);
    lemma_pair_reads_back(color.b);
    assert forall|i: int| 1 <= i < 7 implies is_hex(#[trigger] text[i]) by {
        if i == 1 || i == 2 {
        } else if i == 3 || i == 4 {
        } else {
        }
    }
}

/// The upper-case hex digit for a value below sixteen.
pub open spec fn upper_hex_digit_of(value: int) -> u8 {
    if value < 10 {
        (0x30 + value) as u8
    } else {
        (0x41 + value - 10) as u8
    }
}

/// A colour is read the same whichever case its digits are written in.
pub proof fn law_color_reads_in_either_case(color: Color)
    ensures
        color_of(
            seq![
                0x23u8,
                upper_hex_digit_of(color.r as int / 16),
                upper_hex_digit_of(color.r as int % 16),
                upper_hex_digit_of(color.g as int / 16),
                upper_hex_digit_of(color.g as int % 16),
                upper_hex_digit_of(color.b as int / 16),
                upper_hex_digit_of(color.b as int % 16),
            ],
        ) == Some(color),
{
    let text = seq![
        0x23u8,
        upper_hex_digit_of(color.r as int / 16),
        upper_hex_digit_of(color.r as int % 16),
        upper_hex_digit_of(color.g as int / 16),
        upper_hex_digit_of(color.g as int % 16),
        upper_hex_digit_of(color.b as int / 16),
        upper_hex_digit_of(color.b as int % 16),
    ];
    let r = color.r as int;
    let g = color.g as int;
    let b = color.b as int;
    assert((r / 16) * 16 + r % 16 == r);
    assert((g / 16) * 16 + g % 16 == g);
    assert((b / 16) * 16 + b % 16 == b);
    assert forall|i: int| 1 <= i < 7 implies is_hex(#[trigger] text[i]) by {
    }
}

} // verus!

//! The script a replay follows: what the child sent and what the app did,
//! in the order it happened, one step per line.
//!
//! ```text
//! out "\x1b[?1h"
//! key ArrowUp
//! key A ctrl
//! key A alt consumed=alt "å"
//! resize 10 4 8 16
//! mouse press left 3 1
//! wheel 0 -2 3 1
//! focus gained
//! select 0 0 5 0 word
//! scroll -2
//! copy
//! ```
//!
//! Blank lines and `#` comments are skipped. A quoted run is the last thing
//! on a line, so everything before the first quote is words and everything
//! from it is bytes, written the way a description writes them.

use vstd::prelude::*;
use vstd::string::StrSliceExecFns;
use vstd::string::StringExecFns;
#[allow(unused_imports)]
use vstd::utf8::*;

use crate::golden::{byte_text, bytes_text, decimal, digit, hex_char, signed_decimal, lines, lines_of, push_decimal, quoted_run, texts};
use crate::key::{Key, KeyAction, Modifier};
use crate::mouse::{MouseAction, MouseButton};
use crate::screen::{hex_value, is_hex};
use crate::session::SelectionUnit;
use crate::text::push_char;

verus! {

broadcast use vstd::string::group_string_axioms;

// ---------------------------------------------------------------------------
// What a script says, as values.
// ---------------------------------------------------------------------------

/// A key event a script names, and the text it carries.
#[derive(Clone, Debug)]
pub struct KeyStep {
    /// Which way the key moved.
    pub action: KeyAction,
    /// Which key.
    pub key: Key,
    /// What was held, as modifier bits.
    pub mods: u16,
    /// Which of those the layout spent on the text.
    pub consumed_mods: u16,
    /// Whether an input method is mid-composition.
    pub composing: bool,
    /// What the layout made of the key, as UTF-8.
    pub text: Vec<u8>,
}

/// One step of a script.
#[derive(Debug)]
pub enum Step {
    /// Bytes from the child, fed to the engine.
    Out(Vec<u8>),
    /// A key event from the app.
    Key(KeyStep),
    /// A mouse event from the app, over one cell.
    Mouse { action: MouseAction, button: MouseButton, mods: u16, x: u16, y: u16 },
    /// A wheel turn, in lines, over one cell.
    Wheel { delta_x: i32, delta_y: i32, x: u16, y: u16, mods: u16 },
    /// The window gaining or losing focus.
    Focus { gained: bool },
    /// A resize: the new grid, and how big one cell now is in pixels.
    Resize { cols: u16, rows: u16, cell_width: u32, cell_height: u32 },
    /// A selection gesture: its anchor, the cell the pointer is over, the
    /// unit, and whether the ends are corners of a block.
    Select { anchor: (u16, u16), cell: (u16, u16), unit: SelectionUnit, rectangle: bool },
    /// Take the selection as plain text.
    Copy,
    /// The viewport moving of the app's own accord, up positive.
    Scroll { lines: i32 },
}

/// A key step with its text read as a sequence.
pub struct KeyModel {
    pub action: KeyAction,
    pub key: Key,
    pub mods: u16,
    pub consumed_mods: u16,
    pub composing: bool,
    pub text: Seq<u8>,
}

/// A step with its bytes read as a sequence.
pub enum StepModel {
    Out(Seq<u8>),
    Key(KeyModel),
    Mouse { action: MouseAction, button: MouseButton, mods: u16, x: u16, y: u16 },
    Wheel { delta_x: i32, delta_y: i32, x: u16, y: u16, mods: u16 },
    Focus { gained: bool },
    Resize { cols: u16, rows: u16, cell_width: u32, cell_height: u32 },
    Select { anchor: (u16, u16), cell: (u16, u16), unit: SelectionUnit, rectangle: bool },
    Copy,
    Scroll { lines: i32 },
}

impl View for KeyStep {
    type V = KeyModel;

    open spec fn view(&self) -> KeyModel {
        KeyModel {
            action: self.action,
            key: self.key,
            mods: self.mods,
            consumed_mods: self.consumed_mods,
            composing: self.composing,
            text: self.text@,
        }
    }
}

impl View for Step {
    type V = StepModel;

    open spec fn view(&self) -> StepModel {
        match self {
            Step::Out(bytes) => StepModel::Out(bytes@),
            Step::Key(key) => StepModel::Key(key@),
            Step::Mouse { action, button, mods, x, y } => StepModel::Mouse {
                action: *action,
                button: *button,
                mods: *mods,
                x: *x,
                y: *y,
            },
            Step::Wheel { delta_x, delta_y, x, y, mods } => StepModel::Wheel {
                delta_x: *delta_x,
                delta_y: *delta_y,
                x: *x,
                y: *y,
                mods: *mods,
            },
            Step::Focus { gained } => StepModel::Focus { gained: *gained },
            Step::Resize { cols, rows, cell_width, cell_height } => StepModel::Resize {
                cols: *cols,
                rows: *rows,
                cell_width: *cell_width,
                cell_height: *cell_height,
            },
            Step::Select { anchor, cell, unit, rectangle } => StepModel::Select {
                anchor: *anchor,
                cell: *cell,
                unit: *unit,
                rectangle: *rectangle,
            },
            Step::Copy => StepModel::Copy,
            Step::Scroll { lines } => StepModel::Scroll { lines: *lines },
        }
    }
}

/// Whether an answer and its model agree: the same step, or the same
/// message.
pub open spec fn agrees<T: View>(answer: Result<T, String>, model: Result<T::V, Seq<char>>) -> bool {
    match (answer, model) {
        (Ok(value), Ok(expected)) => value@ == expected,
        (Err(message), Err(expected)) => message@ == expected,
        _ => false,
    }
}

// ---------------------------------------------------------------------------
// Characters, words and numbers.
// ---------------------------------------------------------------------------

/// Whether `c` is white space, as Unicode's `White_Space` property says.
pub open spec fn is_space(c: char) -> bool {
    let v = c as u32;
    ||| v == 0x20
    ||| (0x09 <= v <= 0x0d)
    ||| v == 0x85
    ||| v == 0xa0
    ||| v == 0x1680
    ||| (0x2000 <= v <= 0x200a)
    ||| v == 0x2028
    ||| v == 0x2029
    ||| v == 0x202f
    ||| v == 0x205f
    ||| v == 0x3000
}

/// Whether `c` is white space.
pub fn is_space_char(c: char) -> (space: bool)
    ensures
        space == is_space(c),
{
    let v = c as u32;
    v == 0x20 || (0x09 <= v && v <= 0x0d) || v == 0x85 || v == 0xa0 || v == 0x1680 || (0x2000 <= v
        && v <= 0x200a) || v == 0x2028 || v == 0x2029 || v == 0x202f || v == 0x205f || v == 0x3000
}

/// The words of `text` after `current`, the part of a word already read:
/// the runs of characters between white space.
pub open spec fn split_words(text: Seq<char>, current: Seq<char>) -> Seq<Seq<char>>
    decreases text.len(),
{
    if text.len() == 0 {
        if current.len() == 0 {
            Seq::empty()
        } else {
            seq![current]
        }
    } else if is_space(text[0]) {
        (if current.len() == 0 {
            Seq::empty()
        } else {
            seq![current]
        }) + split_words(text.skip(1), Seq::empty())
    } else {
        split_words(text.skip(1), current.push(text[0]))
    }
}

/// The words of `text`.
pub open spec fn words_of(text: Seq<char>) -> Seq<Seq<char>> {
    split_words(text, Seq::empty())
}

/// `text` without the white space it starts with.
pub open spec fn trimmed_start(text: Seq<char>) -> Seq<char>
    decreases text.len(),
{
    if text.len() > 0 && is_space(text[0]) {
        trimmed_start(text.skip(1))
    } else {
        text
    }
}

/// `text` without the white space it ends with.
pub open spec fn trimmed_end(text: Seq<char>) -> Seq<char>
    decreases text.len(),
{
    if text.len() > 0 && is_space(text.last()) {
        trimmed_end(text.drop_last())
    } else {
        text
    }
}

/// A line with nothing on it, or only a comment.
pub open spec fn skipped(line: Seq<char>) -> bool {
    let rest = trimmed_start(line);
    rest.len() == 0 || rest[0] == '#'
}

/// A line cut at its first quote: the words before it, and the run from
/// the quote on, if there is one.
pub open spec fn cut_at_quote(line: Seq<char>) -> (Seq<char>, Option<Seq<char>>)
    decreases line.len(),
{
    if line.len() == 0 {
        (Seq::empty(), None)
    } else if line[0] == '"' {
        (Seq::empty(), Some(line))
    } else {
        let (words, quoted) = cut_at_quote(line.skip(1));
        (seq![line[0]] + words, quoted)
    }
}

/// Whether every character of `digits` is a decimal digit.
pub open spec fn all_digits(digits: Seq<char>) -> bool {
    forall|i: int| 0 <= i < digits.len() ==> '0' <= #[trigger] digits[i] <= '9'
}

/// The value of a run of decimal digits.
pub open spec fn digits_value(digits: Seq<char>) -> int
    decreases digits.len(),
{
    if digits.len() == 0 {
        0
    } else {
        digits_value(digits.drop_last()) * 10 + (digits.last() as int - 48)
    }
}

/// The number `word` writes, as Rust reads an integer: an optional sign —
/// a minus only where `signed` — then at least one decimal digit.
pub open spec fn number_of(word: Seq<char>, signed: bool) -> Option<int> {
    let negative = signed && word.len() > 0 && word[0] == '-';
    let digits = if word.len() > 0 && (word[0] == '+' || negative) {
        word.skip(1)
    } else {
        word
    };
    if digits.len() > 0 && all_digits(digits) {
        Some(
            if negative {
                -digits_value(digits)
            } else {
                digits_value(digits)
            },
        )
    } else {
        None
    }
}

/// The message a word that is not a usable number gets.
pub open spec fn not_a_number(word: Seq<char>) -> Seq<char> {
    word + " is not a number this format can use"@
}

/// The number `word` writes, if it is one between `low` and `high`.
pub open spec fn ranged(word: Seq<char>, signed: bool, low: int, high: int) -> Result<int, Seq<char>> {
    match number_of(word, signed) {
        Some(n) => if low <= n <= high {
            Ok(n)
        } else {
            Err(not_a_number(word))
        },
        None => Err(not_a_number(word)),
    }
}

/// `digits` without the plus sign it may start with.
pub open spec fn unsigned_digits(digits: Seq<char>) -> Seq<char> {
    if digits.len() > 0 && digits[0] == '+' {
        digits.skip(1)
    } else {
        digits
    }
}

/// The value of a hex byte written with at most two digits and an optional
/// plus sign, as Rust reads one.
pub open spec fn hex_byte(digits: Seq<char>) -> Option<u8> {
    let rest = unsigned_digits(digits);
    if rest.len() == 0 || !(forall|i: int| 0 <= i < rest.len() ==> (#[trigger] rest[i] as u32) < 128
        && is_hex(rest[i] as u8)) {
        None
    } else if rest.len() == 1 {
        Some(hex_value(rest[0] as u8))
    } else {
        Some((hex_value(rest[0] as u8) * 16 + hex_value(rest[1] as u8)) as u8)
    }
}

/// The bytes a quoted run's body spells: each character as its UTF-8, and
/// `\\`, `\"` and `\xNN` as the byte they name.
pub open spec fn unescaped(body: Seq<char>) -> Result<Seq<u8>, Seq<char>>
    decreases body.len(),
{
    if body.len() == 0 {
        Ok(Seq::empty())
    } else if body[0] != '\\' {
        match unescaped(body.skip(1)) {
            Ok(rest) => Ok(encode_scalar(body[0] as u32) + rest),
            Err(e) => Err(e),
        }
    } else if body.len() == 1 {
        Err("a backslash at the end escapes nothing"@)
    } else if body[1] == '\\' || body[1] == '"' {
        match unescaped(body.skip(2)) {
            Ok(rest) => Ok(seq![body[1] as u8] + rest),
            Err(e) => Err(e),
        }
    } else if body[1] == 'x' {
        let digits = body.subrange(2, if body.len() < 4 {
            body.len() as int
        } else {
            4
        });
        match hex_byte(digits) {
            Some(b) => match unescaped(body.skip((2 + digits.len()) as int)) {
                Ok(rest) => Ok(seq![b] + rest),
                Err(e) => Err(e),
            },
            None => Err("\\x"@ + digits + " is not a byte"@),
        }
    } else {
        Err("\\"@ + seq![body[1]] + " is not an escape this format knows"@)
    }
}

/// The bytes a quoted run spells, the quotes at either end taken off.
pub open spec fn unquoted(quoted: Seq<char>) -> Result<Seq<u8>, Seq<char>> {
    if quoted.len() >= 2 && quoted[0] == '"' && quoted.last() == '"' {
        unescaped(quoted.subrange(1, quoted.len() - 1))
    } else {
        Err(quoted + " is not a quoted run of bytes"@)
    }
}

/// The bit a modifier word names.
pub open spec fn modifier_named(name: Seq<char>) -> Option<u16> {
    if name == "shift"@ {
        Some(1u16)
    } else if name == "ctrl"@ {
        Some(2u16)
    } else if name == "alt"@ {
        Some(4u16)
    } else if name == "super"@ {
        Some(8u16)
    } else {
        None
    }
}

/// The pieces of `text` after `current` between commas, empty ones too.
pub open spec fn split_commas(text: Seq<char>, current: Seq<char>) -> Seq<Seq<char>>
    decreases text.len(),
{
    if text.len() == 0 {
        seq![current]
    } else if text[0] == ',' {
        seq![current] + split_commas(text.skip(1), Seq::empty())
    } else {
        split_commas(text.skip(1), current.push(text[0]))
    }
}

/// The modifier bits `names` add to `held`, or the first name that is not
/// one.
pub open spec fn modifiers_among(names: Seq<Seq<char>>, held: u16) -> Result<u16, Seq<char>>
    decreases names.len(),
{
    if names.len() == 0 {
        Ok(held)
    } else {
        match modifier_named(names[0]) {
            Some(bit) => modifiers_among(names.skip(1), held | bit),
            None => Err(names[0] + " is not a word this format knows"@),
        }
    }
}

/// The modifier bits a comma-separated list names.
pub open spec fn modifiers_of(list: Seq<char>) -> Result<u16, Seq<char>> {
    modifiers_among(split_commas(list, Seq::empty()), 0)
}

/// The modifier bits a run of words names, OR-ed into `held`.
pub open spec fn held_among(words: Seq<Seq<char>>, held: u16) -> Result<u16, Seq<char>>
    decreases words.len(),
{
    if words.len() == 0 {
        Ok(held)
    } else {
        match modifiers_of(words[0]) {
            Ok(bits) => held_among(words.skip(1), held | bits),
            Err(e) => Err(e),
        }
    }
}

/// The keys a script can name.
pub open spec fn key_named(name: Seq<char>) -> Option<Key> {
    if name == "A"@ {
        Some(Key::A)
    } else if name == "ArrowUp"@ {
        Some(Key::ArrowUp)
    } else if name == "Enter"@ {
        Some(Key::Enter)
    } else {
        None
    }
}

// ---------------------------------------------------------------------------
// What each directive makes of its words.
// ---------------------------------------------------------------------------

/// A key step after its remaining words have had their say.
pub open spec fn key_words(words: Seq<Seq<char>>, step: KeyModel) -> Result<KeyModel, Seq<char>>
    decreases words.len(),
{
    if words.len() == 0 {
        Ok(step)
    } else {
        let word = words[0];
        let rest = words.skip(1);
        if word == "release"@ {
            key_words(rest, KeyModel { action: KeyAction::Release, ..step })
        } else if word == "repeat"@ {
            key_words(rest, KeyModel { action: KeyAction::Repeat, ..step })
        } else if word == "composing"@ {
            key_words(rest, KeyModel { composing: true, ..step })
        } else if word.len() >= 9 && word.take(9) == "consumed="@ {
            match modifiers_of(word.skip(9)) {
                Ok(bits) => key_words(rest, KeyModel { consumed_mods: bits, ..step }),
                Err(e) => Err(e),
            }
        } else {
            match modifiers_of(word) {
                Ok(bits) => key_words(rest, KeyModel { mods: step.mods | bits, ..step }),
                Err(e) => Err(e),
            }
        }
    }
}

/// A key step: the key's name, then any of `release`, `repeat`,
/// `composing`, `consumed=<mods>` and modifier names. A press with nothing
/// held unless a word says otherwise.
pub open spec fn key_of(words: Seq<Seq<char>>, text: Seq<u8>) -> Result<KeyModel, Seq<char>> {
    if words.len() == 0 {
        Err("key names no key"@)
    } else {
        match key_named(words[0]) {
            Some(key) => key_words(
                words.skip(1),
                KeyModel {
                    action: KeyAction::Press,
                    key,
                    mods: 0,
                    consumed_mods: 0,
                    composing: false,
                    text,
                },
            ),
            None => Err(words[0] + " is not a key this format knows"@),
        }
    }
}

/// The word at `at`, or nothing past the end.
pub open spec fn word_at(words: Seq<Seq<char>>, at: int) -> Option<Seq<char>> {
    if 0 <= at < words.len() {
        Some(words[at])
    } else {
        None
    }
}

/// A number the word at `at` writes, or `missing` when there is no word.
pub open spec fn numbered(
    words: Seq<Seq<char>>,
    at: int,
    signed: bool,
    low: int,
    high: int,
    missing: Seq<char>,
) -> Result<int, Seq<char>> {
    match word_at(words, at) {
        Some(word) => ranged(word, signed, low, high),
        None => Err(missing),
    }
}

/// "not" and what a word was, or "nothing".
pub open spec fn or_nothing(word: Option<Seq<char>>) -> Seq<char> {
    match word {
        Some(w) => w,
        None => "nothing"@,
    }
}

/// A resize: exactly four numbers, the grid in cells and one cell in
/// pixels.
pub open spec fn resize_of(words: Seq<Seq<char>>) -> Result<StepModel, Seq<char>> {
    if words.len() != 4 {
        Err("resize takes cols, rows, cell width and cell height, not "@ + decimal(words.len())
            + " words"@)
    } else {
        match ranged(words[0], false, 0, u16::MAX as int) {
            Err(e) => Err(e),
            Ok(cols) => match ranged(words[1], false, 0, u16::MAX as int) {
                Err(e) => Err(e),
                Ok(rows) => match ranged(words[2], false, 0, u32::MAX as int) {
                    Err(e) => Err(e),
                    Ok(w) => match ranged(words[3], false, 0, u32::MAX as int) {
                        Err(e) => Err(e),
                        Ok(h) => Ok(
                            StepModel::Resize {
                                cols: cols as u16,
                                rows: rows as u16,
                                cell_width: w as u32,
                                cell_height: h as u32,
                            },
                        ),
                    },
                },
            },
        }
    }
}

/// A mouse action's name.
pub open spec fn action_named(word: Option<Seq<char>>) -> Option<MouseAction> {
    if word == Some("press"@) {
        Some(MouseAction::Press)
    } else if word == Some("release"@) {
        Some(MouseAction::Release)
    } else if word == Some("motion"@) {
        Some(MouseAction::Motion)
    } else {
        None
    }
}

/// A mouse button's name.
pub open spec fn button_named(word: Option<Seq<char>>) -> Option<MouseButton> {
    if word == Some("none"@) {
        Some(MouseButton::NoButton)
    } else if word == Some("left"@) {
        Some(MouseButton::Left)
    } else if word == Some("right"@) {
        Some(MouseButton::Right)
    } else if word == Some("middle"@) {
        Some(MouseButton::Middle)
    } else {
        None
    }
}

/// A mouse event: an action, a button, the cell, then modifiers.
pub open spec fn mouse_of(words: Seq<Seq<char>>) -> Result<StepModel, Seq<char>> {
    match action_named(word_at(words, 0)) {
        None => Err("a mouse action is press, release or motion, not "@ + or_nothing(word_at(words, 0))),
        Some(action) => match button_named(word_at(words, 1)) {
            None => Err("a mouse button is none, left, right or middle, not "@ + or_nothing(
                word_at(words, 1),
            )),
            Some(button) => match numbered(words, 2, false, 0, u16::MAX as int, "mouse names no column"@) {
                Err(e) => Err(e),
                Ok(x) => match numbered(words, 3, false, 0, u16::MAX as int, "mouse names no row"@) {
                    Err(e) => Err(e),
                    Ok(y) => match held_among(
                        if words.len() > 4 {
                            words.skip(4)
                        } else {
                            Seq::empty()
                        },
                        0,
                    ) {
                        Err(e) => Err(e),
                        Ok(mods) => Ok(
                            StepModel::Mouse { action, button, mods, x: x as u16, y: y as u16 },
                        ),
                    },
                },
            },
        },
    }
}

/// A wheel turn: both deltas in lines, the cell, then modifiers.
pub open spec fn wheel_of(words: Seq<Seq<char>>) -> Result<StepModel, Seq<char>> {
    match numbered(words, 0, true, i32::MIN as int, i32::MAX as int, "wheel names no sideways delta"@) {
        Err(e) => Err(e),
        Ok(dx) => match numbered(words, 1, true, i32::MIN as int, i32::MAX as int, "wheel names no delta"@) {
            Err(e) => Err(e),
            Ok(dy) => match numbered(words, 2, false, 0, u16::MAX as int, "wheel names no column"@) {
                Err(e) => Err(e),
                Ok(x) => match numbered(words, 3, false, 0, u16::MAX as int, "wheel names no row"@) {
                    Err(e) => Err(e),
                    Ok(y) => match held_among(
                        if words.len() > 4 {
                            words.skip(4)
                        } else {
                            Seq::empty()
                        },
                        0,
                    ) {
                        Err(e) => Err(e),
                        Ok(mods) => Ok(
                            StepModel::Wheel {
                                delta_x: dx as i32,
                                delta_y: dy as i32,
                                x: x as u16,
                                y: y as u16,
                                mods,
                            },
                        ),
                    },
                },
            },
        },
    }
}

/// A selection unit's name.
pub open spec fn unit_named(word: Option<Seq<char>>) -> Option<SelectionUnit> {
    if word == Some("cell"@) {
        Some(SelectionUnit::Cell)
    } else if word == Some("word"@) {
        Some(SelectionUnit::Word)
    } else if word == Some("line"@) {
        Some(SelectionUnit::Line)
    } else {
        None
    }
}

/// A selection gesture: the anchor cell, the pointer's cell, a unit, and
/// `rectangle` if the ends are corners of a block.
pub open spec fn select_of(words: Seq<Seq<char>>) -> Result<StepModel, Seq<char>> {
    let max = u16::MAX as int;
    match numbered(words, 0, false, 0, max, "select names no anchor column"@) {
        Err(e) => Err(e),
        Ok(ax) => match numbered(words, 1, false, 0, max, "select names no anchor row"@) {
            Err(e) => Err(e),
            Ok(ay) => match numbered(words, 2, false, 0, max, "select names no column"@) {
                Err(e) => Err(e),
                Ok(x) => match numbered(words, 3, false, 0, max, "select names no row"@) {
                    Err(e) => Err(e),
                    Ok(y) => match unit_named(word_at(words, 4)) {
                        None => Err("a selection unit is cell, word or line, not "@ + or_nothing(
                            word_at(words, 4),
                        )),
                        Some(unit) => {
                            let anchor = (ax as u16, ay as u16);
                            let cell = (x as u16, y as u16);
                            match word_at(words, 5) {
                                None => Ok(StepModel::Select { anchor, cell, unit, rectangle: false }),
                                Some(w) => if w == "rectangle"@ {
                                    Ok(StepModel::Select { anchor, cell, unit, rectangle: true })
                                } else {
                                    Err(w + " is not a word select knows"@)
                                },
                            }
                        },
                    },
                },
            },
        },
    }
}

/// What a line's words make of it, given the bytes its quoted run spelled.
pub open spec fn directive(words: Seq<Seq<char>>, quoted: Option<Seq<u8>>) -> Result<StepModel, Seq<char>> {
    if words.len() == 0 {
        Err("a line with only a quoted run says nothing to do with it"@)
    } else {
        let name = words[0];
        let rest = words.skip(1);
        if name == "out"@ {
            if rest.len() > 0 {
                Err("out takes bytes and nothing else, not "@ + rest[0])
            } else {
                match quoted {
                    Some(bytes) => Ok(StepModel::Out(bytes)),
                    None => Err("out says nothing to feed"@),
                }
            }
        } else if name == "key"@ {
            match key_of(
                rest,
                match quoted {
                    Some(bytes) => bytes,
                    None => Seq::empty(),
                },
            ) {
                Ok(key) => Ok(StepModel::Key(key)),
                Err(e) => Err(e),
            }
        } else if name == "resize"@ {
            if quoted is Some {
                Err("resize takes numbers and nothing else"@)
            } else {
                resize_of(rest)
            }
        } else if name == "mouse"@ {
            mouse_of(rest)
        } else if name == "wheel"@ {
            wheel_of(rest)
        } else if name == "select"@ {
            select_of(rest)
        } else if name == "copy"@ {
            if rest.len() == 0 {
                Ok(StepModel::Copy)
            } else {
                Err("copy takes nothing, not "@ + rest[0])
            }
        } else if name == "scroll"@ {
            match numbered(rest, 0, true, i32::MIN as int, i32::MAX as int, "scroll names no count of lines"@) {
                Ok(n) => Ok(StepModel::Scroll { lines: n as i32 }),
                Err(e) => Err(e),
            }
        } else if name == "focus"@ {
            if word_at(rest, 0) == Some("gained"@) {
                Ok(StepModel::Focus { gained: true })
            } else if word_at(rest, 0) == Some("lost"@) {
                Ok(StepModel::Focus { gained: false })
            } else {
                Err("focus is gained or lost, not "@ + or_nothing(word_at(rest, 0)))
            }
        } else {
            Err(name + " is not a directive this format knows"@)
        }
    }
}

/// The step one line says.
pub open spec fn step_of(line: Seq<char>) -> Result<StepModel, Seq<char>> {
    let (head, quote) = cut_at_quote(line);
    match quote {
        Some(run) => match unquoted(trimmed_end(run)) {
            Ok(bytes) => directive(words_of(head), Some(bytes)),
            Err(e) => Err(e),
        },
        None => directive(words_of(head), None),
    }
}

/// The steps of `lines`, the first of which is line `first` counted from
/// zero, or the first line that says something this format does not know,
/// numbered from one.
pub open spec fn steps_of(lines: Seq<Seq<char>>, first: nat) -> Result<Seq<StepModel>, Seq<char>>
    decreases lines.len(),
{
    if lines.len() == 0 {
        Ok(Seq::empty())
    } else if skipped(lines[0]) {
        steps_of(lines.skip(1), first + 1)
    } else {
        match step_of(lines[0]) {
            Err(e) => Err("line "@ + decimal(first + 1) + ": "@ + e),
            Ok(step) => match steps_of(lines.skip(1), first + 1) {
                Ok(rest) => Ok(seq![step] + rest),
                Err(e) => Err(e),
            },
        }
    }
}

/// The steps a script says.
pub open spec fn script_of(script: Seq<char>) -> Result<Seq<StepModel>, Seq<char>> {
    steps_of(lines_of(script), 0)
}

// ---------------------------------------------------------------------------
// Reading it.
// ---------------------------------------------------------------------------

/// Words read as characters.
pub open spec fn views(words: Seq<Vec<char>>) -> Seq<Seq<char>> {
    words.map_values(|w: Vec<char>| w@)
}

/// Steps read as their models.
pub open spec fn step_views(steps: Seq<Step>) -> Seq<StepModel> {
    steps.map_values(|s: Step| s@)
}

/// The characters of `text`.
fn chars_of(text: &str) -> (chars: Vec<char>)
    ensures
        chars@ == text@,
{
    let mut chars: Vec<char> = Vec::new();
    for c in it: text.chars()
        invariant
            it.seq() == text@,
            chars@ == text@.take(it.index() as int),
    {
        chars.push(c);
        proof {
            assert(chars@ =~= text@.take(it.index() + 1));
        }
    }
    proof {
        assert(text@.take(text@.len() as int) =~= text@);
    }
    chars
}

/// `head` then `word` as a string.
fn said(head: &str, word: &[char]) -> (text: String)
    ensures
        text@ == head@ + word@,
{
    let mut text = head.to_owned();
    let mut i: usize = 0;
    while i < word.len()
        invariant
            i <= word@.len(),
            text@ == head@ + word@.take(i as int),
        decreases word@.len() - i,
    {
        push_char(&mut text, word[i]);
        proof {
            assert(word@.take(i + 1) =~= word@.take(i as int).push(word@[i as int]));
        }
        i = i + 1;
    }
    proof {
        assert(word@.take(word@.len() as int) =~= word@);
    }
    text
}

/// `word` then `tail` as a string.
fn word_then(word: &[char], tail: &str) -> (text: String)
    ensures
        text@ == word@ + tail@,
{
    let mut text = said("", word);
    proof {
        reveal_strlit("");
        assert(""@ + word@ =~= word@);
    }
    text.append(tail);
    text
}

/// Whether `word` is the literal `name`.
fn is_word(word: &[char], name: &str) -> (same: bool)
    ensures
        same == (word@ == name@),
{
    let n = name.unicode_len();
    if word.len() != n {
        return false;
    }
    let mut i: usize = 0;
    while i < n
        invariant
            n == name@.len(),
            word@.len() == n,
            i <= n,
            forall|j: int| 0 <= j < i ==> word@[j] == name@[j],
        decreases n - i,
    {
        if word[i] != name.get_char(i) {
            return false;
        }
        i = i + 1;
    }
    proof {
        assert(word@ =~= name@);
    }
    true
}

/// Whether the optional `word` is the literal `name`.
fn is_some_word(word: Option<&Vec<char>>, name: &str) -> (same: bool)
    ensures
        same == (match word {
            Some(w) => Some(w@),
            None => None::<Seq<char>>,
        } == Some(name@)),
{
    match word {
        Some(w) => is_word(w.as_slice(), name),
        None => false,
    }
}

/// The word at `at`, if there is one.
fn word_in(words: &[Vec<char>], at: usize) -> (word: Option<&Vec<char>>)
    ensures
        match word {
            Some(w) => word_at(views(words@), at as int) == Some(w@),
            None => word_at(views(words@), at as int) is None,
        },
{
    if at < words.len() {
        Some(&words[at])
    } else {
        None
    }
}

/// The words of `text`.
fn words_in(text: &[char]) -> (words: Vec<Vec<char>>)
    ensures
        views(words@) == words_of(text@),
{
    let mut words: Vec<Vec<char>> = Vec::new();
    let mut current: Vec<char> = Vec::new();
    let mut i: usize = 0;
    proof {
        assert(text@.skip(0) =~= text@);
        assert(views(words@) =~= Seq::<Seq<char>>::empty());
        assert(Seq::<Seq<char>>::empty() + words_of(text@) =~= words_of(text@));
    }
    while i < text.len()
        invariant
            i <= text@.len(),
            words_of(text@) == views(words@) + split_words(text@.skip(i as int), current@),
        decreases text@.len() - i,
    {
        let ghost rest = text@.skip(i as int);
        let ghost before = views(words@);
        let ghost cur = current@;
        proof {
            assert(rest[0] == text@[i as int]);
            assert(rest.skip(1) =~= text@.skip(i + 1));
        }
        let c = text[i];
        if is_space_char(c) {
            proof {
                assert(split_words(rest, cur) == (if cur.len() == 0 {
                    Seq::<Seq<char>>::empty()
                } else {
                    seq![cur]
                }) + split_words(rest.skip(1), Seq::empty()));
            }
            if current.len() > 0 {
                let mut word: Vec<char> = Vec::new();
                std::mem::swap(&mut word, &mut current);
                words.push(word);
                proof {
                    assert(views(words@) =~= before.push(cur));
                    assert(before + (seq![cur] + split_words(rest.skip(1), Seq::empty())) =~= before.push(
                        cur,
                    ) + split_words(rest.skip(1), Seq::empty()));
                    assert(current@ =~= Seq::<char>::empty());
                    assert(words_of(text@) == views(words@) + split_words(text@.skip(i + 1), current@));
                }
            } else {
                proof {
                    assert(Seq::<Seq<char>>::empty() + split_words(rest.skip(1), Seq::empty())
                        =~= split_words(rest.skip(1), Seq::empty()));
                    assert(cur =~= Seq::<char>::empty());
                    assert(words_of(text@) == views(words@) + split_words(text@.skip(i + 1), current@));
                }
            }
        } else {
            current.push(c);
            proof {
                assert(split_words(rest, cur) == split_words(rest.skip(1), cur.push(c)));
                assert(current@ =~= cur.push(c));
                assert(words_of(text@) == views(words@) + split_words(text@.skip(i + 1), current@));
            }
        }
        i = i + 1;
    }
    proof {
        assert(text@.skip(i as int) =~= Seq::<char>::empty());
    }
    let ghost before = views(words@);
    if current.len() > 0 {
        let ghost cur = current@;
        words.push(current);
        proof {
            assert(views(words@) =~= before + seq![cur]);
        }
    } else {
        proof {
            assert(before + Seq::<Seq<char>>::empty() =~= before);
        }
    }
    words
}

/// Whether `line` is blank or a comment.
fn is_skipped(line: &[char]) -> (skip: bool)
    ensures
        skip == skipped(line@),
{
    let mut i: usize = 0;
    proof {
        assert(line@.skip(0) =~= line@);
    }
    while i < line.len() && is_space_char(line[i])
        invariant
            i <= line@.len(),
            trimmed_start(line@) == trimmed_start(line@.skip(i as int)),
        decreases line@.len() - i,
    {
        proof {
            assert(line@.skip(i as int).skip(1) =~= line@.skip(i + 1));
        }
        i = i + 1;
    }
    proof {
        let rest = line@.skip(i as int);
        if rest.len() > 0 {
            assert(rest[0] == line@[i as int]);
        }
    }
    i == line.len() || line[i] == '#'
}

/// How long `run` is without the white space it ends with.
fn trimmed_len(run: &[char]) -> (n: usize)
    ensures
        n <= run@.len(),
        run@.take(n as int) == trimmed_end(run@),
{
    let mut n: usize = run.len();
    proof {
        assert(run@.take(n as int) =~= run@);
    }
    while n > 0 && is_space_char(run[n - 1])
        invariant
            n <= run@.len(),
            trimmed_end(run@) == trimmed_end(run@.take(n as int)),
        decreases n,
    {
        proof {
            assert(run@.take(n as int).drop_last() =~= run@.take(n - 1));
        }
        n = n - 1;
    }
    n
}

/// Where the first quote of `line` is, or its length when it has none,
/// and what that means for the cut.
proof fn lemma_cut_at(line: Seq<char>, k: int)
    requires
        0 <= k <= line.len(),
        forall|j: int| 0 <= j < k ==> line[j] != '"',
        k == line.len() || line[k] == '"',
    ensures
        cut_at_quote(line) == (line.take(k), if k < line.len() {
            Some(line.skip(k))
        } else {
            None
        }),
    decreases line.len(),
{
    if line.len() == 0 {
    } else if k == 0 {
        assert(line.take(0) =~= Seq::<char>::empty());
        assert(line.skip(0) =~= line);
    } else {
        let tail = line.skip(1);
        assert forall|j: int| 0 <= j < k - 1 implies tail[j] != '"' by {
            assert(tail[j] == line[j + 1]);
        }
        if k < line.len() {
            assert(tail[k - 1] == line[k]);
        }
        lemma_cut_at(tail, k - 1);
        assert(seq![line[0]] + tail.take(k - 1) =~= line.take(k));
        if k < line.len() {
            assert(tail.skip(k - 1) =~= line.skip(k));
        }
    }
}

/// Append the UTF-8 of `c`.
fn push_scalar(out: &mut Vec<u8>, c: char)
    ensures
        final(out)@ == old(out)@ + encode_scalar(c as u32),
{
    let v = c as u32;
    if v <= 0x7f {
        out.push((v & 0x7f) as u8);
    } else if v <= 0x7ff {
        out.push(0xC0 | ((v >> 6) & 0x1F) as u8);
        out.push(0x80 | (v & 0x3F) as u8);
    } else if v <= 0xffff {
        out.push(0xE0 | ((v >> 12) & 0x0F) as u8);
        out.push(0x80 | ((v >> 6) & 0x3F) as u8);
        out.push(0x80 | (v & 0x3F) as u8);
    } else {
        out.push(0xF0 | ((v >> 18) & 0x7) as u8);
        out.push(0x80 | ((v >> 12) & 0x3F) as u8);
        out.push(0x80 | ((v >> 6) & 0x3F) as u8);
        out.push(0x80 | (v & 0x3F) as u8);
    }
    proof {
        assert(final(out)@ =~= old(out)@ + encode_scalar(c as u32));
    }
}

/// The value of a hex digit character.
fn hex_char_value(c: char) -> (value: Option<u8>)
    ensures
        value == (if (c as u32) < 128 && is_hex(c as u8) {
            Some(hex_value(c as u8))
        } else {
            None::<u8>
        }),
{
    let v = c as u32;
    if v >= 128 {
        return None;
    }
    let b = v as u8;
    if 0x30 <= b && b <= 0x39 {
        Some(b - 0x30)
    } else if 0x41 <= b && b <= 0x46 {
        Some(b - 0x41 + 10)
    } else if 0x61 <= b && b <= 0x66 {
        Some(b - 0x61 + 10)
    } else {
        None
    }
}

/// Read a hex byte of at most two digits and an optional plus sign.
fn read_hex_byte(digits: &[char]) -> (byte: Option<u8>)
    requires
        digits@.len() <= 2,
    ensures
        byte == hex_byte(digits@),
{
    let rest = if digits.len() > 0 && digits[0] == '+' {
        vstd::slice::slice_subrange(digits, 1, digits.len())
    } else {
        digits
    };
    proof {
        if digits@.len() > 0 && digits@[0] == '+' {
            assert(rest@ =~= digits@.skip(1));
        }
        assert(rest@ == unsigned_digits(digits@));
    }
    if rest.len() == 0 {
        return None;
    }
    let high = hex_char_value(rest[0]);
    match high {
        None => {
            proof {
                assert(!((rest@[0] as u32) < 128 && is_hex(rest@[0] as u8)));
            }
            None
        },
        Some(h) => {
            if rest.len() == 1 {
                proof {
                    assert forall|i: int| 0 <= i < rest@.len() implies (#[trigger] rest@[i] as u32)
                        < 128 && is_hex(rest@[i] as u8) by {
                        assert(i == 0);
                    }
                }
                Some(h)
            } else {
                match hex_char_value(rest[1]) {
                    None => {
                        proof {
                            assert(!((rest@[1] as u32) < 128 && is_hex(rest@[1] as u8)));
                        }
                        None
                    },
                    Some(l) => {
                        proof {
                            assert forall|i: int| 0 <= i < rest@.len() implies (#[trigger] rest@[i]
                                as u32) < 128 && is_hex(rest@[i] as u8) by {
                                assert(i == 0 || i == 1);
                            }
                        }
                        Some(h * 16 + l)
                    },
                }
            }
        },
    }
}

/// Read a quoted run's body into the bytes it spells.
fn unescape(body: &[char]) -> (bytes: Result<Vec<u8>, String>)
    ensures
        match (bytes, unescaped(body@)) {
            (Ok(b), Ok(m)) => b@ == m,
            (Err(e), Err(m)) => e@ == m,
            _ => false,
        },
{
    let mut out: Vec<u8> = Vec::new();
    let mut i: usize = 0;
    proof {
        assert(body@.skip(0) =~= body@);
        assert(Seq::<u8>::empty() + Seq::<u8>::empty() =~= Seq::<u8>::empty());
    }
    while i < body.len()
        invariant
            i <= body@.len(),
            unescaped(body@) == match unescaped(body@.skip(i as int)) {
                Ok(rest) => Ok(out@ + rest),
                Err(e) => Err(e),
            },
        decreases body@.len() - i,
    {
        let ghost rest = body@.skip(i as int);
        let ghost before = out@;
        proof {
            assert(rest[0] == body@[i as int]);
        }
        let c = body[i];
        if c != '\\' {
            push_scalar(&mut out, c);
            proof {
                assert(rest.skip(1) =~= body@.skip(i + 1));
                match unescaped(rest.skip(1)) {
                    Ok(r) => {
                        assert(before + (encode_scalar(c as u32) + r) =~= out@ + r);
                    },
                    Err(_) => {},
                }
            }
            i = i + 1;
        } else if i + 1 == body.len() {
            proof {
                reveal_strlit("a backslash at the end escapes nothing");
            }
            return Err("a backslash at the end escapes nothing".to_owned());
        } else {
            let next = body[i + 1];
            proof {
                assert(rest[1] == body@[i + 1]);
            }
            if next == '\\' || next == '"' {
                out.push(next as u8);
                proof {
                    assert(rest.skip(2) =~= body@.skip(i + 2));
                    match unescaped(rest.skip(2)) {
                        Ok(r) => {
                            assert(before + (seq![next as u8] + r) =~= out@ + r);
                        },
                        Err(_) => {},
                    }
                }
                i = i + 2;
            } else if next == 'x' {
                let end = if body.len() - i < 4 {
                    body.len()
                } else {
                    i + 4
                };
                let digits = vstd::slice::slice_subrange(body, i + 2, end);
                proof {
                    assert(digits@ =~= rest.subrange(2, if rest.len() < 4 {
                        rest.len() as int
                    } else {
                        4
                    }));
                }
                match read_hex_byte(digits) {
                    Some(b) => {
                        out.push(b);
                        proof {
                            assert(rest.skip((2 + digits@.len()) as int) =~= body@.skip(end as int));
                            match unescaped(rest.skip((2 + digits@.len()) as int)) {
                                Ok(r) => {
                                    assert(before + (seq![b] + r) =~= out@ + r);
                                },
                                Err(_) => {},
                            }
                        }
                        i = end;
                    },
                    None => {
                        return Err(said("\\x", digits).concat(" is not a byte"));
                    },
                }
            } else {
                let mut message = "\\".to_owned();
                push_char(&mut message, next);
                message.append(" is not an escape this format knows");
                return Err(message);
            }
        }
    }
    proof {
        assert(body@.skip(i as int) =~= Seq::<char>::empty());
        assert(out@ + Seq::<u8>::empty() =~= out@);
    }
    Ok(out)
}

/// Read back what a description writes a run of bytes as: a quoted run,
/// each byte as itself or as `\xNN`, and a character written out as itself
/// besides.
///
/// # Errors
///
/// What is wrong with the run, when it is not one.
pub fn unquote(quoted: &str) -> (bytes: Result<Vec<u8>, String>)
    ensures
        match (bytes, unquoted(quoted@)) {
            (Ok(b), Ok(m)) => b@ == m,
            (Err(e), Err(m)) => e@ == m,
            _ => false,
        },
{
    let chars = chars_of(quoted);
    unquote_chars(chars.as_slice())
}

/// Read a quoted run into the bytes it spells.
fn unquote_chars(quoted: &[char]) -> (bytes: Result<Vec<u8>, String>)
    ensures
        match (bytes, unquoted(quoted@)) {
            (Ok(b), Ok(m)) => b@ == m,
            (Err(e), Err(m)) => e@ == m,
            _ => false,
        },
{
    let n = quoted.len();
    if n >= 2 && quoted[0] == '"' && quoted[n - 1] == '"' {
        let body = vstd::slice::slice_subrange(quoted, 1, n - 1);
        unescape(body)
    } else {
        Err(word_then(quoted, " is not a quoted run of bytes"))
    }
}

/// The largest magnitude a number in a script is read up to; every
/// number a script writes fits well inside it.
const NUMBER_LIMIT: u64 = 4294967295;

/// Read the number `word` writes, if it is one between `low` and `high`.
fn read_number(word: &[char], signed: bool, low: i64, high: i64) -> (n: Result<i64, String>)
    requires
        -(NUMBER_LIMIT as int) <= low <= high <= NUMBER_LIMIT,
    ensures
        match (n, ranged(word@, signed, low as int, high as int)) {
            (Ok(v), Ok(m)) => v == m,
            (Err(e), Err(m)) => e@ == m,
            _ => false,
        },
{
    let negative = signed && word.len() > 0 && word[0] == '-';
    let start: usize = if word.len() > 0 && (word[0] == '+' || negative) {
        1
    } else {
        0
    };
    let digits = vstd::slice::slice_subrange(word, start, word.len());
    let ghost spec_digits = if word@.len() > 0 && (word@[0] == '+' || negative) {
        word@.skip(1)
    } else {
        word@
    };
    proof {
        assert(digits@ =~= spec_digits);
    }
    if digits.len() == 0 {
        return Err(word_then(word, " is not a number this format can use"));
    }
    let mut value: u64 = 0;
    let mut big = false;
    let mut i: usize = 0;
    while i < digits.len()
        invariant
            i <= digits@.len(),
            negative == (signed && word@.len() > 0 && word@[0] == '-'),
            digits@ == (if word@.len() > 0 && (word@[0] == '+' || negative) {
                word@.skip(1)
            } else {
                word@
            }),
            forall|j: int| 0 <= j < i ==> '0' <= #[trigger] digits@[j] <= '9',
            digits_value(digits@.take(i as int)) >= 0,
            !big ==> value == digits_value(digits@.take(i as int)) && value <= NUMBER_LIMIT,
            big ==> digits_value(digits@.take(i as int)) > NUMBER_LIMIT,
        decreases digits@.len() - i,
    {
        let c = digits[i];
        if !('0' <= c && c <= '9') {
            proof {
                assert(!('0' <= digits@[i as int] <= '9'));
                assert(!all_digits(digits@));
                assert(number_of(word@, signed) is None);
            }
            return Err(word_then(word, " is not a number this format can use"));
        }
        let d = (c as u32 - 48) as u64;
        proof {
            let next = digits@.take(i + 1);
            assert(next.drop_last() =~= digits@.take(i as int));
            assert(next.last() == c);
            assert(digits_value(next) == digits_value(digits@.take(i as int)) * 10 + d);
        }
        if !big {
            value = value * 10 + d;
            if value > NUMBER_LIMIT {
                big = true;
            }
        }
        i = i + 1;
    }
    proof {
        assert(digits@.take(digits@.len() as int) =~= digits@);
        assert(all_digits(digits@));
    }
    if big {
        return Err(word_then(word, " is not a number this format can use"));
    }
    let v: i64 = if negative {
        -(value as i64)
    } else {
        value as i64
    };
    if low <= v && v <= high {
        Ok(v)
    } else {
        Err(word_then(word, " is not a number this format can use"))
    }
}

/// Read the number at `at`, or `missing` when there is no word there.
fn read_numbered(
    words: &[Vec<char>],
    at: usize,
    signed: bool,
    low: i64,
    high: i64,
    missing: &str,
) -> (n: Result<i64, String>)
    requires
        -(NUMBER_LIMIT as int) <= low <= high <= NUMBER_LIMIT,
    ensures
        match (n, numbered(views(words@), at as int, signed, low as int, high as int, missing@)) {
            (Ok(v), Ok(m)) => v == m,
            (Err(e), Err(m)) => e@ == m,
            _ => false,
        },
{
    match word_in(words, at) {
        Some(word) => read_number(word.as_slice(), signed, low, high),
        None => Err(missing.to_owned()),
    }
}

/// The bit a modifier word names.
fn modifier_bit(name: &[char]) -> (bit: Option<u16>)
    ensures
        bit == modifier_named(name@),
{
    if is_word(name, "shift") {
        Some(Modifier::Shift.bit())
    } else if is_word(name, "ctrl") {
        Some(Modifier::Ctrl.bit())
    } else if is_word(name, "alt") {
        Some(Modifier::Alt.bit())
    } else if is_word(name, "super") {
        Some(Modifier::Super.bit())
    } else {
        None
    }
}

/// The modifier bits a comma-separated list names.
fn read_modifiers(list: &[char]) -> (bits: Result<u16, String>)
    ensures
        match (bits, modifiers_of(list@)) {
            (Ok(b), Ok(m)) => b == m,
            (Err(e), Err(m)) => e@ == m,
            _ => false,
        },
{
    let mut held: u16 = 0;
    let mut start: usize = 0;
    let mut i: usize = 0;
    proof {
        assert(list@.skip(0) =~= list@);
        assert(list@.subrange(0, 0) =~= Seq::<char>::empty());
    }
    while i < list.len()
        invariant
            start <= i <= list@.len(),
            modifiers_of(list@) == modifiers_among(
                split_commas(list@.skip(i as int), list@.subrange(start as int, i as int)),
                held,
            ),
        decreases list@.len() - i,
    {
        let ghost rest = list@.skip(i as int);
        let ghost cur = list@.subrange(start as int, i as int);
        proof {
            assert(rest[0] == list@[i as int]);
            assert(rest.skip(1) =~= list@.skip(i + 1));
        }
        if list[i] == ',' {
            let piece = vstd::slice::slice_subrange(list, start, i);
            let ghost later = split_commas(rest.skip(1), Seq::empty());
            proof {
                assert(piece@ =~= cur);
                assert((seq![cur] + later)[0] == cur);
                assert((seq![cur] + later).skip(1) =~= later);
                assert(list@.subrange((i + 1) as int, (i + 1) as int) =~= Seq::<char>::empty());
            }
            match modifier_bit(piece) {
                Some(bit) => {
                    held = held | bit;
                    start = i + 1;
                },
                None => {
                    return Err(word_then(piece, " is not a word this format knows"));
                },
            }
        } else {
            proof {
                assert(list@.subrange(start as int, i + 1) =~= cur.push(list@[i as int]));
            }
        }
        i = i + 1;
    }
    let piece = vstd::slice::slice_subrange(list, start, list.len());
    proof {
        assert(list@.skip(i as int) =~= Seq::<char>::empty());
        assert(piece@ =~= list@.subrange(start as int, i as int));
        assert(split_commas(list@.skip(i as int), piece@) == seq![piece@]);
        assert(seq![piece@][0] == piece@);
        assert(seq![piece@].skip(1) =~= Seq::<Seq<char>>::empty());
    }
    match modifier_bit(piece) {
        Some(bit) => {
            proof {
                assert(modifiers_among(seq![piece@].skip(1), held | bit) == Ok::<u16, Seq<char>>(
                    held | bit,
                ));
            }
            Ok(held | bit)
        },
        None => Err(word_then(piece, " is not a word this format knows")),
    }
}

/// `words` from `at` on, or none when there are no more than `at`.
pub open spec fn after(words: Seq<Seq<char>>, at: int) -> Seq<Seq<char>> {
    if words.len() > at {
        words.skip(at)
    } else {
        Seq::empty()
    }
}

/// The modifier bits the words from `at` on name.
fn read_held(words: &[Vec<char>], at: usize) -> (bits: Result<u16, String>)
    ensures
        match (bits, held_among(after(views(words@), at as int), 0)) {
            (Ok(b), Ok(m)) => b == m,
            (Err(e), Err(m)) => e@ == m,
            _ => false,
        },
{
    let ghost all = views(words@);
    let mut held: u16 = 0;
    let mut i: usize = at;
    if i >= words.len() {
        return Ok(0);
    }
    proof {
        assert(after(all, at as int) == all.skip(at as int));
    }
    while i < words.len()
        invariant
            at <= i <= words@.len(),
            all == views(words@),
            held_among(after(all, at as int), 0) == held_among(all.skip(i as int), held),
        decreases words@.len() - i,
    {
        proof {
            assert(all.skip(i as int)[0] == words@[i as int]@);
            assert(all.skip(i as int).skip(1) =~= all.skip(i + 1));
        }
        match read_modifiers(words[i].as_slice()) {
            Ok(bits) => {
                held = held | bits;
            },
            Err(e) => {
                return Err(e);
            },
        }
        i = i + 1;
    }
    proof {
        assert(all.skip(i as int) =~= Seq::<Seq<char>>::empty());
    }
    Ok(held)
}

/// The key a script names.
fn named_key(name: &[char]) -> (key: Option<Key>)
    ensures
        key == key_named(name@),
{
    if is_word(name, "A") {
        Some(Key::A)
    } else if is_word(name, "ArrowUp") {
        Some(Key::ArrowUp)
    } else if is_word(name, "Enter") {
        Some(Key::Enter)
    } else {
        None
    }
}

/// A key step from its words, the first of which names the key.
fn key_step(words: &[Vec<char>], text: Vec<u8>) -> (step: Result<KeyStep, String>)
    ensures
        agrees(step, key_of(views(words@), text@)),
{
    let ghost all = views(words@);
    if words.len() == 0 {
        return Err("key names no key".to_owned());
    }
    proof {
        assert(all[0] == words@[0]@);
    }
    let key = match named_key(words[0].as_slice()) {
        Some(key) => key,
        None => {
            return Err(word_then(words[0].as_slice(), " is not a key this format knows"));
        },
    };
    let mut step = KeyStep {
        action: KeyAction::Press,
        key,
        mods: 0,
        consumed_mods: 0,
        composing: false,
        text,
    };
    let mut i: usize = 1;
    while i < words.len()
        invariant
            1 <= i <= words@.len(),
            all == views(words@),
            key_of(all, text@) == key_words(all.skip(i as int), step@),
        decreases words@.len() - i,
    {
        let word = words[i].as_slice();
        proof {
            assert(all.skip(i as int)[0] == word@);
            assert(all.skip(i as int).skip(1) =~= all.skip(i + 1));
        }
        let consumed = if word.len() >= 9 {
            let prefix = vstd::slice::slice_subrange(word, 0, 9);
            proof {
                assert(prefix@ =~= word@.take(9));
            }
            is_word(prefix, "consumed=")
        } else {
            false
        };
        if is_word(word, "release") {
            step.action = KeyAction::Release;
        } else if is_word(word, "repeat") {
            step.action = KeyAction::Repeat;
        } else if is_word(word, "composing") {
            step.composing = true;
        } else if consumed {
            let list = vstd::slice::slice_subrange(word, 9, word.len());
            proof {
                assert(list@ =~= word@.skip(9));
            }
            match read_modifiers(list) {
                Ok(bits) => {
                    step.consumed_mods = bits;
                },
                Err(e) => {
                    return Err(e);
                },
            }
        } else {
            match read_modifiers(word) {
                Ok(bits) => {
                    step.mods = step.mods | bits;
                },
                Err(e) => {
                    return Err(e);
                },
            }
        }
        i = i + 1;
    }
    proof {
        assert(all.skip(i as int) =~= Seq::<Seq<char>>::empty());
    }
    Ok(step)
}

/// A resize from its words.
fn resize_step(words: &[Vec<char>]) -> (step: Result<Step, String>)
    ensures
        agrees(step, resize_of(views(words@))),
{
    let ghost all = views(words@);
    if words.len() != 4 {
        let mut message = "resize takes cols, rows, cell width and cell height, not ".to_owned();
        push_decimal(&mut message, words.len() as u64);
        message.append(" words");
        return Err(message);
    }
    proof {
        assert(all[0] == words@[0]@ && all[1] == words@[1]@ && all[2] == words@[2]@ && all[3]
            == words@[3]@);
    }
    let cols = match read_number(words[0].as_slice(), false, 0, 65535) {
        Ok(v) => v as u16,
        Err(e) => {
            return Err(e);
        },
    };
    let rows = match read_number(words[1].as_slice(), false, 0, 65535) {
        Ok(v) => v as u16,
        Err(e) => {
            return Err(e);
        },
    };
    let cell_width = match read_number(words[2].as_slice(), false, 0, 4294967295) {
        Ok(v) => v as u32,
        Err(e) => {
            return Err(e);
        },
    };
    let cell_height = match read_number(words[3].as_slice(), false, 0, 4294967295) {
        Ok(v) => v as u32,
        Err(e) => {
            return Err(e);
        },
    };
    Ok(Step::Resize { cols, rows, cell_width, cell_height })
}

/// A mouse action's name.
fn mouse_action(word: Option<&Vec<char>>) -> (action: Option<MouseAction>)
    ensures
        action == action_named(match word {
            Some(w) => Some(w@),
            None => None,
        }),
{
    if is_some_word(word, "press") {
        Some(MouseAction::Press)
    } else if is_some_word(word, "release") {
        Some(MouseAction::Release)
    } else if is_some_word(word, "motion") {
        Some(MouseAction::Motion)
    } else {
        None
    }
}

/// A mouse button's name.
fn mouse_button(word: Option<&Vec<char>>) -> (button: Option<MouseButton>)
    ensures
        button == button_named(match word {
            Some(w) => Some(w@),
            None => None,
        }),
{
    if is_some_word(word, "none") {
        Some(MouseButton::NoButton)
    } else if is_some_word(word, "left") {
        Some(MouseButton::Left)
    } else if is_some_word(word, "right") {
        Some(MouseButton::Right)
    } else if is_some_word(word, "middle") {
        Some(MouseButton::Middle)
    } else {
        None
    }
}

/// `head` then a word, or `head` then "nothing".
fn not_this(head: &str, word: Option<&Vec<char>>) -> (text: String)
    ensures
        text@ == head@ + or_nothing(match word {
            Some(w) => Some(w@),
            None => None,
        }),
{
    match word {
        Some(w) => said(head, w.as_slice()),
        None => head.to_owned().concat("nothing"),
    }
}

/// A mouse event from its words.
fn mouse_step(words: &[Vec<char>]) -> (step: Result<Step, String>)
    ensures
        agrees(step, mouse_of(views(words@))),
{
    let first = word_in(words, 0);
    let action = match mouse_action(first) {
        Some(action) => action,
        None => {
            return Err(not_this("a mouse action is press, release or motion, not ", first));
        },
    };
    let second = word_in(words, 1);
    let button = match mouse_button(second) {
        Some(button) => button,
        None => {
            return Err(not_this("a mouse button is none, left, right or middle, not ", second));
        },
    };
    let x = match read_numbered(words, 2, false, 0, 65535, "mouse names no column") {
        Ok(v) => v as u16,
        Err(e) => {
            return Err(e);
        },
    };
    let y = match read_numbered(words, 3, false, 0, 65535, "mouse names no row") {
        Ok(v) => v as u16,
        Err(e) => {
            return Err(e);
        },
    };
    let mods = match read_held(words, 4) {
        Ok(mods) => mods,
        Err(e) => {
            return Err(e);
        },
    };
    Ok(Step::Mouse { action, button, mods, x, y })
}

/// A wheel turn from its words.
fn wheel_step(words: &[Vec<char>]) -> (step: Result<Step, String>)
    ensures
        agrees(step, wheel_of(views(words@))),
{
    let delta_x = match read_numbered(
        words,
        0,
        true,
        -2147483648,
        2147483647,
        "wheel names no sideways delta",
    ) {
        Ok(v) => v as i32,
        Err(e) => {
            return Err(e);
        },
    };
    let delta_y = match read_numbered(words, 1, true, -2147483648, 2147483647, "wheel names no delta") {
        Ok(v) => v as i32,
        Err(e) => {
            return Err(e);
        },
    };
    let x = match read_numbered(words, 2, false, 0, 65535, "wheel names no column") {
        Ok(v) => v as u16,
        Err(e) => {
            return Err(e);
        },
    };
    let y = match read_numbered(words, 3, false, 0, 65535, "wheel names no row") {
        Ok(v) => v as u16,
        Err(e) => {
            return Err(e);
        },
    };
    let mods = match read_held(words, 4) {
        Ok(mods) => mods,
        Err(e) => {
            return Err(e);
        },
    };
    Ok(Step::Wheel { delta_x, delta_y, x, y, mods })
}

/// A selection unit's name.
fn selection_unit(word: Option<&Vec<char>>) -> (unit: Option<SelectionUnit>)
    ensures
        unit == unit_named(match word {
            Some(w) => Some(w@),
            None => None,
        }),
{
    if is_some_word(word, "cell") {
        Some(SelectionUnit::Cell)
    } else if is_some_word(word, "word") {
        Some(SelectionUnit::Word)
    } else if is_some_word(word, "line") {
        Some(SelectionUnit::Line)
    } else {
        None
    }
}

/// A selection gesture from its words.
fn select_step(words: &[Vec<char>]) -> (step: Result<Step, String>)
    ensures
        agrees(step, select_of(views(words@))),
{
    let ax = match read_numbered(words, 0, false, 0, 65535, "select names no anchor column") {
        Ok(v) => v as u16,
        Err(e) => {
            return Err(e);
        },
    };
    let ay = match read_numbered(words, 1, false, 0, 65535, "select names no anchor row") {
        Ok(v) => v as u16,
        Err(e) => {
            return Err(e);
        },
    };
    let x = match read_numbered(words, 2, false, 0, 65535, "select names no column") {
        Ok(v) => v as u16,
        Err(e) => {
            return Err(e);
        },
    };
    let y = match read_numbered(words, 3, false, 0, 65535, "select names no row") {
        Ok(v) => v as u16,
        Err(e) => {
            return Err(e);
        },
    };
    let fifth = word_in(words, 4);
    let unit = match selection_unit(fifth) {
        Some(unit) => unit,
        None => {
            return Err(not_this("a selection unit is cell, word or line, not ", fifth));
        },
    };
    let rectangle = match word_in(words, 5) {
        None => false,
        Some(w) => {
            if is_word(w.as_slice(), "rectangle") {
                true
            } else {
                return Err(word_then(w.as_slice(), " is not a word select knows"));
            }
        },
    };
    Ok(Step::Select { anchor: (ax, ay), cell: (x, y), unit, rectangle })
}

/// What a line's words make of it, given the bytes its quoted run spelled.
fn directive_step(words: &[Vec<char>], quoted: Option<Vec<u8>>) -> (step: Result<Step, String>)
    ensures
        agrees(
            step,
            directive(
                views(words@),
                match quoted {
                    Some(b) => Some(b@),
                    None => None,
                },
            ),
        ),
{
    let ghost all = views(words@);
    if words.len() == 0 {
        return Err("a line with only a quoted run says nothing to do with it".to_owned());
    }
    let name = words[0].as_slice();
    let rest = vstd::slice::slice_subrange(words, 1, words.len());
    proof {
        assert(all[0] == name@);
        assert(views(rest@) =~= all.skip(1));
    }
    if is_word(name, "out") {
        if rest.len() > 0 {
            proof {
                assert(views(rest@)[0] == rest@[0]@);
            }
            return Err(said("out takes bytes and nothing else, not ", rest[0].as_slice()));
        }
        match quoted {
            Some(bytes) => Ok(Step::Out(bytes)),
            None => Err("out says nothing to feed".to_owned()),
        }
    } else if is_word(name, "key") {
        let text = match quoted {
            Some(bytes) => bytes,
            None => Vec::new(),
        };
        match key_step(rest, text) {
            Ok(key) => Ok(Step::Key(key)),
            Err(e) => Err(e),
        }
    } else if is_word(name, "resize") {
        if quoted.is_some() {
            Err("resize takes numbers and nothing else".to_owned())
        } else {
            resize_step(rest)
        }
    } else if is_word(name, "mouse") {
        mouse_step(rest)
    } else if is_word(name, "wheel") {
        wheel_step(rest)
    } else if is_word(name, "select") {
        select_step(rest)
    } else if is_word(name, "copy") {
        if rest.len() == 0 {
            Ok(Step::Copy)
        } else {
            proof {
                assert(views(rest@)[0] == rest@[0]@);
            }
            Err(said("copy takes nothing, not ", rest[0].as_slice()))
        }
    } else if is_word(name, "scroll") {
        match read_numbered(
            rest,
            0,
            true,
            -2147483648,
            2147483647,
            "scroll names no count of lines",
        ) {
            Ok(v) => Ok(Step::Scroll { lines: v as i32 }),
            Err(e) => Err(e),
        }
    } else if is_word(name, "focus") {
        let first = word_in(rest, 0);
        if is_some_word(first, "gained") {
            Ok(Step::Focus { gained: true })
        } else if is_some_word(first, "lost") {
            Ok(Step::Focus { gained: false })
        } else {
            Err(not_this("focus is gained or lost, not ", first))
        }
    } else {
        Err(word_then(name, " is not a directive this format knows"))
    }
}

/// The step one line says.
pub fn step(line: &[char]) -> (step: Result<Step, String>)
    ensures
        agrees(step, step_of(line@)),
{
    let mut k: usize = 0;
    while k < line.len() && line[k] != '"'
        invariant
            k <= line@.len(),
            forall|j: int| 0 <= j < k ==> line@[j] != '"',
        decreases line@.len() - k,
    {
        k = k + 1;
    }
    proof {
        lemma_cut_at(line@, k as int);
    }
    let head = vstd::slice::slice_subrange(line, 0, k);
    let words = words_in(head);
    proof {
        assert(head@ =~= line@.take(k as int));
    }
    let quoted = if k < line.len() {
        let run = vstd::slice::slice_subrange(line, k, line.len());
        let n = trimmed_len(run);
        let trimmed = vstd::slice::slice_subrange(run, 0, n);
        proof {
            assert(run@ =~= line@.skip(k as int));
            assert(trimmed@ =~= run@.take(n as int));
        }
        match unquote_chars(trimmed) {
            Ok(bytes) => Some(bytes),
            Err(e) => {
                return Err(e);
            },
        }
    } else {
        None
    };
    directive_step(words.as_slice(), quoted)
}

/// Read a script into the steps it says, or the first line it says
/// something this format does not know on, numbered from one.
pub fn parse(script: &str) -> (steps: Result<Vec<Step>, String>)
    ensures
        match (steps, script_of(script@)) {
            (Ok(s), Ok(m)) => step_views(s@) == m,
            (Err(e), Err(m)) => e@ == m,
            _ => false,
        },
{
    let all = lines(script);
    let ghost ls = texts(all@);
    let mut steps: Vec<Step> = Vec::new();
    let mut i: usize = 0;
    proof {
        assert(ls.skip(0) =~= ls);
        assert(step_views(steps@) =~= Seq::<StepModel>::empty());
        match steps_of(ls, 0) {
            Ok(r) => {
                assert(Seq::<StepModel>::empty() + r =~= r);
            },
            Err(_) => {},
        }
    }
    while i < all.len()
        invariant
            i <= all@.len(),
            ls == texts(all@),
            ls == lines_of(script@),
            steps_of(ls, 0) == match steps_of(ls.skip(i as int), i as nat) {
                Ok(r) => Ok(step_views(steps@) + r),
                Err(e) => Err(e),
            },
        decreases all@.len() - i,
    {
        let line = chars_of(all[i].as_str());
        let ghost rest = ls.skip(i as int);
        let ghost before = step_views(steps@);
        proof {
            assert(rest[0] == line@);
            assert(rest.skip(1) =~= ls.skip(i + 1));
        }
        if !is_skipped(line.as_slice()) {
            match step(line.as_slice()) {
                Ok(s) => {
                    steps.push(s);
                    proof {
                        assert(step_views(steps@) =~= before.push(step_views(steps@).last()));
                        match steps_of(ls.skip(i + 1), (i + 1) as nat) {
                            Ok(r) => {
                                assert(before + (seq![step_views(steps@).last()] + r) =~= step_views(
                                    steps@,
                                ) + r);
                            },
                            Err(_) => {},
                        }
                    }
                },
                Err(e) => {
                    let mut message = "line ".to_owned();
                    push_decimal(&mut message, (i + 1) as u64);
                    message.append(": ");
                    message.append(e.as_str());
                    return Err(message);
                },
            }
        }
        i = i + 1;
    }
    proof {
        assert(ls.skip(i as int) =~= Seq::<Seq<char>>::empty());
        assert(step_views(steps@) + Seq::<StepModel>::empty() =~= step_views(steps@));
    }
    Ok(steps)
}

// ---------------------------------------------------------------------------
// What a description writes, a script reads back.
// ---------------------------------------------------------------------------

/// The text of a run of bytes, read from the front.
proof fn lemma_bytes_text_front(b: Seq<u8>)
    requires
        b.len() > 0,
    ensures
        bytes_text(b) == byte_text(b[0]) + bytes_text(b.skip(1)),
    decreases b.len(),
{
    if b.len() == 1 {
        assert(b.drop_last() =~= Seq::<u8>::empty());
        assert(b.skip(1) =~= Seq::<u8>::empty());
        assert(bytes_text(Seq::<u8>::empty()) == Seq::<char>::empty());
        assert(b.last() == b[0]);
        assert(bytes_text(b) =~= byte_text(b[0]) + Seq::<char>::empty());
    } else {
        let d = b.drop_last();
        lemma_bytes_text_front(d);
        assert(d.skip(1) =~= b.skip(1).drop_last());
        assert(b.skip(1).last() == b.last());
        assert(bytes_text(b) =~= byte_text(b[0]) + bytes_text(b.skip(1)));
    }
}

/// A lowercase hex digit reads back as the value it was written for.
proof fn lemma_hex_char_reads_back(n: int)
    requires
        0 <= n < 16,
    ensures
        (hex_char(n) as u32) < 128,
        is_hex(hex_char(n) as u8),
        hex_value(hex_char(n) as u8) == n,
{
    if n < 10 {
        assert(hex_char(n) as u32 == n + 48);
        assert(hex_char(n) as u8 == n + 48);
    } else {
        assert(hex_char(n) as u32 == n - 10 + 97);
        assert(hex_char(n) as u8 == n - 10 + 97);
    }
}

/// What one byte is written as reads back as that byte, whatever follows.
proof fn lemma_byte_text_reads_back(x: u8, rest: Seq<char>)
    ensures
        unescaped(byte_text(x) + rest) == match unescaped(rest) {
            Ok(r) => Ok(seq![x] + r),
            Err(e) => Err(e),
        },
{
    let t = byte_text(x) + rest;
    if x == 0x5cu8 {
        assert(t[0] == '\\' && t[1] == '\\');
        assert(t.skip(2) =~= rest);
    } else if x == 0x22u8 {
        assert(t[0] == '\\' && t[1] == '"');
        assert(t.skip(2) =~= rest);
    } else if 0x20 <= x <= 0x7e {
        assert(t[0] == x as char);
        assert(t.skip(1) =~= rest);
        let v = (x as char) as u32;
        assert(v == x as u32);
        assert(v & 0x7f == v) by (bit_vector)
            requires
                v < 128,
        ;
        assert(encode_scalar(v) =~= seq![x]);
    } else {
        let high = (x / 16) as int;
        let low = (x % 16) as int;
        lemma_hex_char_reads_back(high);
        lemma_hex_char_reads_back(low);
        assert(t[0] == '\\' && t[1] == 'x');
        let digits = t.subrange(2, 4);
        assert(digits =~= seq![hex_char(high), hex_char(low)]);
        assert(unsigned_digits(digits) =~= digits);
        assert(hex_byte(digits) == Some(x));
        assert(t.skip(4) =~= rest);
    }
}

/// A run of bytes written as a description writes it reads back as the run.
proof fn lemma_bytes_text_reads_back(b: Seq<u8>)
    ensures
        unescaped(bytes_text(b)) == Ok::<Seq<u8>, Seq<char>>(b),
    decreases b.len(),
{
    if b.len() == 0 {
        assert(bytes_text(b) == Seq::<char>::empty());
        assert(b =~= Seq::<u8>::empty());
    } else {
        lemma_bytes_text_front(b);
        lemma_bytes_text_reads_back(b.skip(1));
        lemma_byte_text_reads_back(b[0], bytes_text(b.skip(1)));
        assert(seq![b[0]] + b.skip(1) =~= b);
    }
}

/// What a description writes a run of bytes as, a script reads back as the
/// same bytes: any bytes at all can be put in a script by quoting them the
/// way a golden shows them.
pub proof fn law_quoted_bytes_read_back(bytes: Seq<u8>)
    ensures
        unquoted(quoted_run(bytes)) == Ok::<Seq<u8>, Seq<char>>(bytes),
{
    lemma_bytes_text_reads_back(bytes);
    let q = quoted_run(bytes);
    assert(q.subrange(1, q.len() - 1) =~= bytes_text(bytes));
}

/// The word a script names a mouse button by.
pub open spec fn button_word(button: MouseButton) -> Seq<char> {
    match button {
        MouseButton::NoButton => "none"@,
        MouseButton::Left => "left"@,
        MouseButton::Right => "right"@,
        MouseButton::Middle => "middle"@,
    }
}

/// The word a script names a mouse action by.
pub open spec fn action_word(action: MouseAction) -> Seq<char> {
    match action {
        MouseAction::Press => "press"@,
        MouseAction::Release => "release"@,
        MouseAction::Motion => "motion"@,
    }
}

/// The word a script names a selection unit by.
pub open spec fn unit_word(unit: SelectionUnit) -> Seq<char> {
    match unit {
        SelectionUnit::Cell => "cell"@,
        SelectionUnit::Word => "word"@,
        SelectionUnit::Line => "line"@,
    }
}

/// The word a script names one of the held modifiers by.
pub open spec fn modifier_word(modifier: Modifier) -> Option<Seq<char>> {
    match modifier {
        Modifier::Shift => Some("shift"@),
        Modifier::Ctrl => Some("ctrl"@),
        Modifier::Alt => Some("alt"@),
        Modifier::Super => Some("super"@),
        _ => None,
    }
}

/// Every button is read back from its own name, and only from it: the
/// button a mouse directive names is the button of its step.
pub proof fn law_button_is_read_from_its_own_name(button: MouseButton, other: MouseButton)
    ensures
        button_named(Some(button_word(button))) == Some(button),
        button != other ==> button_named(Some(button_word(other))) != Some(button),
{
    reveal_strlit("none");
    reveal_strlit("left");
    reveal_strlit("right");
    reveal_strlit("middle");
    assert("none"@ != "left"@ && "none"@ != "right"@ && "none"@ != "middle"@) by {
        assert("none"@[0] != "left"@[0]);
        assert("none"@[0] != "right"@[0]);
        assert("none"@[0] != "middle"@[0]);
    }
    assert("left"@ != "right"@ && "left"@ != "middle"@) by {
        assert("left"@[0] != "right"@[0]);
        assert("left"@[0] != "middle"@[0]);
    }
    assert("right"@ != "middle"@) by {
        assert("right"@[0] != "middle"@[0]);
    }
}

/// Every mouse action is read back from its own name, and only from it.
pub proof fn law_action_is_read_from_its_own_name(action: MouseAction, other: MouseAction)
    ensures
        action_named(Some(action_word(action))) == Some(action),
        action != other ==> action_named(Some(action_word(other))) != Some(action),
{
    reveal_strlit("press");
    reveal_strlit("release");
    reveal_strlit("motion");
    assert("press"@ != "release"@ && "press"@ != "motion"@ && "release"@ != "motion"@) by {
        assert("press"@[0] != "release"@[0]);
        assert("press"@[0] != "motion"@[0]);
        assert("release"@[0] != "motion"@[0]);
    }
}

/// Every selection unit is read back from its own name, and only from it.
pub proof fn law_unit_is_read_from_its_own_name(unit: SelectionUnit, other: SelectionUnit)
    ensures
        unit_named(Some(unit_word(unit))) == Some(unit),
        unit != other ==> unit_named(Some(unit_word(other))) != Some(unit),
{
    reveal_strlit("cell");
    reveal_strlit("word");
    reveal_strlit("line");
    assert("cell"@ != "word"@ && "cell"@ != "line"@) by {
        assert("cell"@[0] != "word"@[0]);
        assert("cell"@[0] != "line"@[0]);
    }
    assert("word"@ != "line"@) by {
        assert("word"@[0] != "line"@[0]);
    }
}

/// A modifier word a script holds down stands for that modifier's own bit,
/// the one a key event carries it by.
pub proof fn law_modifier_word_is_its_bit(modifier: Modifier)
    ensures
        modifier_word(modifier) matches Some(word) ==> modifier_named(word) == Some(crate::key::modifier_bit(modifier)),
{
    reveal_strlit("shift");
    reveal_strlit("ctrl");
    reveal_strlit("alt");
    reveal_strlit("super");
    assert("shift"@ != "ctrl"@ && "shift"@ != "alt"@ && "shift"@ != "super"@) by {
        assert("shift"@[0] != "ctrl"@[0]);
        assert("shift"@[0] != "alt"@[0]);
        assert("shift"@[1] != "super"@[1]);
    }
    assert("ctrl"@ != "alt"@ && "ctrl"@ != "super"@) by {
        assert("ctrl"@[0] != "alt"@[0]);
        assert("ctrl"@[0] != "super"@[0]);
    }
    assert("alt"@ != "super"@) by {
        assert("alt"@[0] != "super"@[0]);
    }
}

/// What a description writes a count as reads back as that count.
proof fn lemma_decimal_reads_back(n: nat)
    ensures
        decimal(n).len() > 0,
        all_digits(decimal(n)),
        digits_value(decimal(n)) == n,
        decimal(n)[0] != '-' && decimal(n)[0] != '+',
    decreases n,
{
    let d = (n % 10) as int;
    assert(digit(d) as int == d + 48);
    if n >= 10 {
        lemma_decimal_reads_back(n / 10);
        let text = decimal(n);
        assert(text.drop_last() =~= decimal(n / 10));
        assert(text.last() == digit(d));
        assert(digits_value(text) == digits_value(text.drop_last()) * 10 + (text.last() as int - 48));
        assert(n == (n / 10) * 10 + n % 10);
        assert(text[0] == decimal(n / 10)[0]);
        assert forall|i: int| 0 <= i < text.len() implies '0' <= #[trigger] text[i] <= '9' by {
            if i < text.len() - 1 {
                assert(text[i] == decimal(n / 10)[i]);
            }
        }
    } else {
        let text = decimal(n);
        assert(text.drop_last() =~= Seq::<char>::empty());
        assert(digits_value(text) == digits_value(text.drop_last()) * 10 + (text.last() as int - 48));
    }
}

/// A number written in decimal reads back as itself: a count as a script
/// or a description writes it, and a signed one with its minus sign where a
/// sign is allowed.
pub proof fn law_written_number_reads_back(n: int)
    ensures
        n >= 0 ==> number_of(decimal(n as nat), false) == Some(n),
        number_of(signed_decimal(n), true) == Some(n),
{
    if n >= 0 {
        lemma_decimal_reads_back(n as nat);
    } else {
        lemma_decimal_reads_back((-n) as nat);
        let text = signed_decimal(n);
        assert(text.skip(1) =~= decimal((-n) as nat));
    }
}

/// The word a script names one of its named keys by.
pub open spec fn key_word(key: Key) -> Option<Seq<char>> {
    match key {
        Key::A => Some("A"@),
        Key::ArrowUp => Some("ArrowUp"@),
        Key::Enter => Some("Enter"@),
        _ => None,
    }
}

/// Every key a script can name is read back from its own name.
pub proof fn law_key_is_read_from_its_own_name(key: Key)
    ensures
        key_word(key) matches Some(word) ==> key_named(word) == Some(key),
{
    reveal_strlit("A");
    reveal_strlit("ArrowUp");
    reveal_strlit("Enter");
    assert("A"@ != "ArrowUp"@ && "A"@ != "Enter"@) by {
        assert("A"@.len() != "ArrowUp"@.len());
        assert("A"@.len() != "Enter"@.len());
    }
    assert("ArrowUp"@ != "Enter"@) by {
        assert("ArrowUp"@[0] != "Enter"@[0]);
    }
}

} // verus!

//! The description of what a session handed back, which is what a golden
//! file holds: everything that left by a route other than the screen, then
//! the screen itself, line by line and cell by cell.
//!
//! It is a total function of what a consumer gets, so two replays that gave
//! a consumer the same things describe them the same way.

use vstd::prelude::*;
use vstd::string::StringExecFns;

use crate::boundary::{child_fields, child_view, KtSnapshot, KtSessionState};
use crate::golden::{
    child_name, child_text, clipboard_target_name, decimal, dirty_name, dirty_text, escaped, hex_char,
    hex_digit_char,
    push_decimal, push_signed, quoted, quoted_bytes, quoted_run, rgb, rgb_text, session_name,
    session_text, shape_name, shape_text, signed_decimal, target_text, underline_name, underline_text,
};
use crate::queue::Event;
use crate::screen::{is_control, is_control_char};
use crate::snapshot::{consistent, holds_run, Cell, Row, Snapshot};
use crate::text::{char_from, push_char};

verus! {

/// The format descriptions are written in. It changes when the encoding
/// does, so a stale golden fails on its first line rather than on every
/// line.
pub const FORMAT: &'static str = "knotty-golden 4";

/// Text in quotes, its backslashes and quotes escaped.
pub open spec fn quoted_text(text: Seq<char>) -> Seq<char> {
    seq!['"'] + escaped(text) + seq!['"']
}

// ---------------------------------------------------------------------------
// What left by a route other than the screen.
// ---------------------------------------------------------------------------

/// How one copy is written: its text, or `none` where nothing was selected.
pub open spec fn copy_line(index: nat, copy: Option<Seq<u8>>) -> Seq<char> {
    match copy {
        Some(text) => "copy "@ + decimal(index) + " "@ + quoted_run(text) + "\n"@,
        None => "copy "@ + decimal(index) + " none\n"@,
    }
}

/// The first `n` copies, one line each.
pub open spec fn copy_lines(copies: Seq<Option<Seq<u8>>>, n: nat) -> Seq<char>
    decreases n,
{
    if n == 0 {
        Seq::empty()
    } else {
        copy_lines(copies, (n - 1) as nat) + copy_line((n - 1) as nat, copies[n - 1])
    }
}

/// How one event is written.
pub open spec fn event_line(index: nat, event: Event) -> Seq<char> {
    match event {
        Event::Bell => "event "@ + decimal(index) + " bell\n"@,
        Event::ClipboardWrite { target, text } => "event "@ + decimal(index) + " clipboard-write "@
            + target_text(target) + " "@ + quoted_text(text@) + "\n"@,
        Event::ChildExited { code } => "event "@ + decimal(index) + " child-exited "@
            + signed_decimal(code as int) + "\n"@,
    }
}

/// The first `n` events, one line each.
pub open spec fn event_lines(events: Seq<Event>, n: nat) -> Seq<char>
    decreases n,
{
    if n == 0 {
        Seq::empty()
    } else {
        event_lines(events, (n - 1) as nat) + event_line((n - 1) as nat, events[n - 1])
    }
}

/// Copies read as byte sequences.
pub open spec fn copy_views(copies: Seq<Option<Vec<u8>>>) -> Seq<Option<Seq<u8>>> {
    copies.map_values(
        |copy: Option<Vec<u8>>|
            match copy {
                Some(text) => Some(text@),
                None => None,
            },
    )
}

/// Everything that left by a route other than the screen: how many times
/// the session said there was something to take, what was queued for the
/// child, what each copy took, and what was queued for the app.
pub open spec fn outbound_text(
    writes: Seq<u8>,
    copies: Seq<Option<Seq<u8>>>,
    events: Seq<Event>,
    dropped: u64,
    wakes: u32,
) -> Seq<char> {
    queued_lines(writes, copies.len(), wakes) + copy_lines(copies, copies.len()) + events_head(
        events.len(),
        dropped,
    ) + event_lines(events, events.len())
}

/// The wakes, the writes, and how many copies there were.
pub open spec fn queued_lines(writes: Seq<u8>, copies: nat, wakes: u32) -> Seq<char> {
    "wakes "@ + decimal(wakes as nat) + "\n"@ + "writes "@ + quoted_run(writes) + "\n"@ + "copies "@
        + decimal(copies) + "\n"@
}

/// How many events there were, and how many were dropped.
pub open spec fn events_head(events: nat, dropped: u64) -> Seq<char> {
    "events "@ + decimal(events) + " dropped "@ + decimal(dropped as nat) + "\n"@
}

// ---------------------------------------------------------------------------
// The screen.
// ---------------------------------------------------------------------------

/// The cell at column `col` of row `row`.
pub open spec fn cell_at(frame: Snapshot, row: int, col: int) -> Cell {
    frame.cells@[row * frame.cols as int + col]
}

/// The codepoints a cell holds: its own, or the run it points at.
pub open spec fn codepoints_of(table: Seq<u32>, cell: Cell) -> Seq<u32> {
    if cell.attributes & 1024u16 == 0 {
        seq![cell.codepoint]
    } else {
        let index = cell.codepoint as int;
        table.subrange(index + 1, index + 1 + table[index])
    }
}

/// Whether `v` is a Unicode scalar value, which is what a `char` is.
pub open spec fn is_char(v: u32) -> bool {
    v < 0xD800 || (0xE000 <= v <= 0x10FFFF)
}

/// How a cell shows in a row's text: its first character, a space where
/// it has none or a null, and a dot where it is a control character.
pub open spec fn shown(first: Option<u32>) -> char {
    match first {
        None => ' ',
        Some(v) => if !is_char(v) || v == 0 {
            ' '
        } else if is_control(v as char) {
            '.'
        } else {
            v as char
        },
    }
}

/// The first of a run of codepoints, if it has one.
pub open spec fn first_of(codepoints: Seq<u32>) -> Option<u32> {
    if codepoints.len() > 0 {
        Some(codepoints[0])
    } else {
        None
    }
}

/// The characters of the first `n` cells of a row.
pub open spec fn row_chars(frame: Snapshot, row: int, n: nat) -> Seq<char>
    decreases n,
{
    if n == 0 {
        Seq::empty()
    } else {
        row_chars(frame, row, (n - 1) as nat).push(
            shown(first_of(codepoints_of(frame.graphemes@, cell_at(frame, row, n - 1)))),
        )
    }
}

/// `n` in uppercase hex, most significant digit first.
pub open spec fn upper_hex(n: nat) -> Seq<char>
    decreases n,
{
    let digit = |d: int|
        if d < 10 {
            (d + 48) as char
        } else {
            (d - 10 + 65) as char
        };
    if n < 16 {
        seq![digit(n as int)]
    } else {
        upper_hex(n / 16) + seq![digit((n % 16) as int)]
    }
}

/// `text` padded with zeros in front to at least four characters.
pub open spec fn padded4(text: Seq<char>) -> Seq<char> {
    if text.len() < 4 {
        Seq::new((4 - text.len()) as nat, |i: int| '0') + text
    } else {
        text
    }
}

/// A codepoint as at least four uppercase hex digits.
pub open spec fn codepoint_text(v: u32) -> Seq<char> {
    padded4(upper_hex(v as nat))
}

/// A cell's attribute bits as four lowercase hex digits.
pub open spec fn attributes_text(bits: u16) -> Seq<char> {
    seq![
        hex_char((bits / 4096) as int),
        hex_char(((bits / 256) % 16) as int),
        hex_char(((bits / 16) % 16) as int),
        hex_char((bits % 16) as int),
    ]
}

/// The first `n` codepoints, separated by spaces.
pub open spec fn joined(codepoints: Seq<u32>, n: nat) -> Seq<char>
    decreases n,
{
    if n == 0 {
        Seq::empty()
    } else if n == 1 {
        codepoint_text(codepoints[0])
    } else {
        joined(codepoints, (n - 1) as nat) + " "@ + codepoint_text(codepoints[n - 1])
    }
}

/// How one cell is written: where it is, its colours, its attributes, its
/// underline and its codepoints.
pub open spec fn cell_line(frame: Snapshot, row: int, col: int) -> Seq<char> {
    let cell = cell_at(frame, row, col);
    let codepoints = codepoints_of(frame.graphemes@, cell);
    cell_head(cell, row, col) + joined(codepoints, codepoints.len()) + "\n"@
}

/// A cell's line up to its codepoints.
pub open spec fn cell_head(cell: Cell, row: int, col: int) -> Seq<char> {
    "cell "@ + decimal(row as nat) + " "@ + decimal(col as nat) + " "@ + rgb_text(
        cell.foreground.r,
        cell.foreground.g,
        cell.foreground.b,
    ) + " "@ + rgb_text(cell.background.r, cell.background.g, cell.background.b) + " "@
        + attributes_text(cell.attributes) + " "@ + underline_text(cell.underline) + " "@
}

/// The lines of the first `n` cells of a row.
pub open spec fn cell_lines(frame: Snapshot, row: int, n: nat) -> Seq<char>
    decreases n,
{
    if n == 0 {
        Seq::empty()
    } else {
        cell_lines(frame, row, (n - 1) as nat) + cell_line(frame, row, n - 1)
    }
}

/// A row's flags as words: dirty and wrapped, or a dash for neither.
pub open spec fn flags_text(flags: u8) -> Seq<char> {
    let dirty = flags & 1u8 != 0;
    let wrapped = flags & 2u8 != 0;
    if dirty && wrapped {
        "dirty,wrapped"@
    } else if dirty {
        "dirty"@
    } else if wrapped {
        "wrapped"@
    } else {
        "-"@
    }
}

/// Where a row is selected, or `none`.
pub open spec fn selection_text(row: Row) -> Seq<char> {
    if row.flags & 4u8 == 0 {
        "none"@
    } else {
        decimal(row.selection_start as nat) + " "@ + decimal(row.selection_end as nat)
    }
}

/// How one row is written: its flags and selection, its text, and then
/// each of its cells.
pub open spec fn row_lines(frame: Snapshot, row: int) -> Seq<char> {
    row_head(frame.row_state@[row], row) + "text "@ + quoted_text(row_chars(frame, row, frame.cols as nat))
        + "\n"@ + cell_lines(frame, row, frame.cols as nat)
}

/// The line that opens a row: its number, flags and selection.
pub open spec fn row_head(state: Row, row: int) -> Seq<char> {
    "row "@ + decimal(row as nat) + " flags "@ + flags_text(state.flags) + " selection "@
        + selection_text(state) + "\n"@
}

/// The lines of the first `n` rows.
pub open spec fn rows_text(frame: Snapshot, n: nat) -> Seq<char>
    decreases n,
{
    if n == 0 {
        Seq::empty()
    } else {
        rows_text(frame, (n - 1) as nat) + row_lines(frame, n - 1)
    }
}

/// What the screen says: its size, what the session said of its child and
/// of itself, the dirty level, the selection, the cursor, the title, the
/// working directory, the grapheme table's size, and every row.
pub open spec fn screen_text(snapshot: KtSnapshot) -> Seq<char> {
    state_lines(snapshot) + cursor_line(snapshot.frame) + text_lines(snapshot.frame) + rows_text(
        snapshot.frame,
        snapshot.frame.rows as nat,
    )
}

/// The size, what the session said of its child and of itself, the dirty
/// level and whether anything is selected.
pub open spec fn state_lines(snapshot: KtSnapshot) -> Seq<char> {
    let frame = snapshot.frame;
    let (child, code) = child_fields(snapshot.child);
    "size "@ + decimal(frame.cols as nat) + " "@ + decimal(frame.rows as nat) + "\n"@ + "child "@
        + child_text(child, code) + "\n"@ + "session "@ + session_text(snapshot.session) + "\n"@
        + "dirty "@ + dirty_text(frame.dirty) + "\n"@ + "selection "@ + (if frame.has_selection {
        "present"@
    } else {
        "none"@
    }) + "\n"@
}

/// Where the cursor is, whether it is drawn, and its shape.
pub open spec fn cursor_line(frame: Snapshot) -> Seq<char> {
    let cursor = frame.screen.cursor;
    "cursor "@ + decimal(cursor.x as nat) + " "@ + decimal(cursor.y as nat) + " "@ + (if cursor.visible {
        "visible"@
    } else {
        "hidden"@
    }) + " "@ + shape_text(cursor.shape) + "\n"@
}

/// The title, the working directory and the grapheme table's size.
pub open spec fn text_lines(frame: Snapshot) -> Seq<char> {
    "title "@ + quoted_text(frame.screen.title@) + "\n"@ + "pwd "@ + quoted_text(frame.screen.pwd@)
        + "\n"@ + "graphemes "@ + decimal(frame.graphemes@.len()) + "\n"@
}

/// The whole description.
pub open spec fn description(
    snapshot: KtSnapshot,
    writes: Seq<u8>,
    copies: Seq<Option<Seq<u8>>>,
    events: Seq<Event>,
    dropped: u64,
    wakes: u32,
) -> Seq<char> {
    FORMAT@ + "\n"@ + outbound_text(writes, copies, events, dropped, wakes) + screen_text(snapshot)
}

// ---------------------------------------------------------------------------
// Writing it.
// ---------------------------------------------------------------------------

/// Append a run of bytes in quotes.
fn push_quoted_run(out: &mut String, bytes: &[u8])
    ensures
        final(out)@ == old(out)@ + quoted_run(bytes@),
{
    let q = quoted_bytes(bytes);
    out.append(q.as_str());
}

/// Append text in quotes.
fn push_quoted_text(out: &mut String, text: &str)
    ensures
        final(out)@ == old(out)@ + quoted_text(text@),
{
    let q = quoted(text);
    out.append(q.as_str());
}

/// Append one copy's line.
fn push_copy(out: &mut String, index: usize, copy: &Option<Vec<u8>>)
    ensures
        final(out)@ == old(out)@ + copy_line(
            index as nat,
            match copy {
                Some(t) => Some(t@),
                None => None,
            },
        ),
{
    out.append("copy ");
    push_decimal(out, index as u64);
    match copy {
        Some(text) => {
            out.append(" ");
            push_quoted_run(out, text.as_slice());
            out.append("\n");
        },
        None => {
            out.append(" none\n");
        },
    }
    proof {
        assert(final(out)@ =~= old(out)@ + copy_line(
            index as nat,
            match copy {
                Some(t) => Some(t@),
                None => None,
            },
        ));
    }
}

/// Append one event's line.
fn push_event(out: &mut String, index: usize, event: &Event)
    ensures
        final(out)@ == old(out)@ + event_line(index as nat, *event),
{
    out.append("event ");
    push_decimal(out, index as u64);
    match event {
        Event::Bell => {
            out.append(" bell\n");
        },
        Event::ClipboardWrite { target, text } => {
            out.append(" clipboard-write ");
            out.append(clipboard_target_name(*target));
            out.append(" ");
            push_quoted_text(out, text.as_str());
            out.append("\n");
        },
        Event::ChildExited { code } => {
            out.append(" child-exited ");
            push_signed(out, *code as i64);
            out.append("\n");
        },
    }
    proof {
        assert(final(out)@ =~= old(out)@ + event_line(index as nat, *event));
    }
}

/// Append the wakes, the writes and the count of copies.
fn push_queued_lines(out: &mut String, writes: &[u8], copies: usize, wakes: u32)
    ensures
        final(out)@ == old(out)@ + queued_lines(writes@, copies as nat, wakes),
{
    out.append("wakes ");
    push_decimal(out, wakes as u64);
    out.append("\n");
    out.append("writes ");
    push_quoted_run(out, writes);
    out.append("\n");
    out.append("copies ");
    push_decimal(out, copies as u64);
    out.append("\n");
    proof {
        assert(final(out)@ =~= old(out)@ + queued_lines(writes@, copies as nat, wakes));
    }
}

/// Append the count of events and of dropped ones.
fn push_events_head(out: &mut String, events: usize, dropped: u64)
    ensures
        final(out)@ == old(out)@ + events_head(events as nat, dropped),
{
    out.append("events ");
    push_decimal(out, events as u64);
    out.append(" dropped ");
    push_decimal(out, dropped);
    out.append("\n");
    proof {
        assert(final(out)@ =~= old(out)@ + events_head(events as nat, dropped));
    }
}

/// Append everything that left by a route other than the screen.
fn push_outbound(
    out: &mut String,
    writes: &[u8],
    copies: &[Option<Vec<u8>>],
    events: &[Event],
    dropped: u64,
    wakes: u32,
)
    ensures
        final(out)@ == old(out)@ + outbound_text(
            writes@,
            copy_views(copies@),
            events@,
            dropped,
            wakes,
        ),
{
    let ghost cv = copy_views(copies@);
    push_queued_lines(out, writes, copies.len(), wakes);
    let ghost head = out@;
    let mut i: usize = 0;
    while i < copies.len()
        invariant
            i <= copies@.len(),
            cv == copy_views(copies@),
            out@ == head + copy_lines(cv, i as nat),
        decreases copies@.len() - i,
    {
        push_copy(out, i, &copies[i]);
        proof {
            assert(cv[i as int] == match copies@[i as int] {
                Some(t) => Some(t@),
                None => None,
            });
            assert(copy_lines(cv, (i + 1) as nat) == copy_lines(cv, i as nat) + copy_line(
                i as nat,
                cv[i as int],
            ));
            assert(out@ =~= head + copy_lines(cv, (i + 1) as nat));
        }
        i = i + 1;
    }
    push_events_head(out, events.len(), dropped);
    let ghost middle = out@;
    let mut k: usize = 0;
    while k < events.len()
        invariant
            k <= events@.len(),
            out@ == middle + event_lines(events@, k as nat),
        decreases events@.len() - k,
    {
        push_event(out, k, &events[k]);
        proof {
            assert(out@ =~= middle + event_lines(events@, (k + 1) as nat));
        }
        k = k + 1;
    }
    proof {
        assert(final(out)@ =~= old(out)@ + outbound_text(
            writes@,
            cv,
            events@,
            dropped,
            wakes,
        ));
    }
}

/// Append `n` in uppercase hex.
fn push_upper_hex(out: &mut String, n: u32)
    ensures
        final(out)@ == old(out)@ + upper_hex(n as nat),
    decreases n,
{
    if n >= 16 {
        push_upper_hex(out, n / 16);
    }
    let d = (n % 16) as u8;
    let c = if d < 10 {
        (d + 48) as char
    } else {
        (d - 10 + 65) as char
    };
    push_char(out, c);
}

/// Append a codepoint as at least four uppercase hex digits.
fn push_codepoint(out: &mut String, v: u32)
    ensures
        final(out)@ == old(out)@ + codepoint_text(v),
{
    let mut digits = String::new();
    push_upper_hex(&mut digits, v);
    let len = digits.as_str().unicode_len();
    let ghost before = out@;
    let mut pad: usize = len;
    while pad < 4
        invariant
            len == digits@.len(),
            len <= pad <= 4 || (len > 4 && pad == len),
            out@ == before + Seq::new((pad - len) as nat, |i: int| '0'),
        decreases 4 - pad,
    {
        push_char(out, '0');
        proof {
            assert(out@ =~= before + Seq::new((pad + 1 - len) as nat, |i: int| '0'));
        }
        pad = pad + 1;
    }
    out.append(digits.as_str());
    proof {
        if len >= 4 {
            assert(Seq::new((pad - len) as nat, |i: int| '0') =~= Seq::<char>::empty());
        }
        assert(final(out)@ =~= before + codepoint_text(v));
    }
}

/// Append a cell's attribute bits as four lowercase hex digits.
fn push_attributes(out: &mut String, bits: u16)
    ensures
        final(out)@ == old(out)@ + attributes_text(bits),
{
    push_char(out, hex_digit_char((bits / 4096) as u8));
    push_char(out, hex_digit_char(((bits / 256) % 16) as u8));
    push_char(out, hex_digit_char(((bits / 16) % 16) as u8));
    push_char(out, hex_digit_char((bits % 16) as u8));
    proof {
        assert(final(out)@ =~= old(out)@ + attributes_text(bits));
    }
}

/// Where cell `row`, `col` is in the row-major grid.
proof fn lemma_cell_index(cols: int, rows: int, row: int, col: int)
    requires
        0 <= row < rows,
        0 <= col < cols,
    ensures
        0 <= row * cols + col < cols * rows,
{
    assert(0 <= row * cols + col < cols * rows) by (nonlinear_arith)
        requires
            0 <= row < rows,
            0 <= col < cols,
    ;
}

/// The codepoints a cell holds.
fn codepoints(frame: &Snapshot, cell: Cell) -> (points: Vec<u32>)
    requires
        cell.attributes & 1024u16 != 0 ==> holds_run(frame.graphemes@, cell.codepoint as int),
    ensures
        points@ == codepoints_of(frame.graphemes@, cell),
{
    if cell.attributes & 1024 == 0 {
        let mut points: Vec<u32> = Vec::new();
        points.push(cell.codepoint);
        proof {
            assert(points@ =~= seq![cell.codepoint]);
        }
        points
    } else {
        let count = frame.graphemes.len();
        let index = cell.codepoint as usize;
        let len = frame.graphemes[index] as usize;
        proof {
            assert(index + 1 + len <= count);
        }
        vstd::slice::slice_to_vec(
            vstd::slice::slice_subrange(frame.graphemes.as_slice(), index + 1, index + 1 + len),
        )
    }
}

/// How a cell shows in its row's text.
fn shown_char(first: Option<u32>) -> (c: char)
    ensures
        c == shown(first),
{
    match first {
        None => ' ',
        Some(v) => match char_from(v) {
            None => ' ',
            Some(ch) => {
                if v == 0 {
                    ' '
                } else if is_control_char(ch) {
                    '.'
                } else {
                    ch
                }
            },
        },
    }
}

/// A cell of a consistent frame.
fn cell_in(frame: &Snapshot, row: u16, col: u16) -> (cell: Cell)
    requires
        consistent(*frame),
        row < frame.rows,
        col < frame.cols,
    ensures
        cell == cell_at(*frame, row as int, col as int),
        cell.attributes & 1024u16 != 0 ==> holds_run(frame.graphemes@, cell.codepoint as int),
{
    proof {
        lemma_cell_index(frame.cols as int, frame.rows as int, row as int, col as int);
    }
    let count = frame.cells.len();
    let at = row as usize * frame.cols as usize + col as usize;
    frame.cells[at]
}

/// The text of a row: each cell's first character.
fn row_text(frame: &Snapshot, row: u16) -> (text: String)
    requires
        consistent(*frame),
        row < frame.rows,
    ensures
        text@ == row_chars(*frame, row as int, frame.cols as nat),
{
    let mut text = String::new();
    let mut col: u16 = 0;
    while col < frame.cols
        invariant
            consistent(*frame),
            row < frame.rows,
            col <= frame.cols,
            text@ == row_chars(*frame, row as int, col as nat),
        decreases frame.cols - col,
    {
        let cell = cell_in(frame, row, col);
        let points = codepoints(frame, cell);
        let first = if points.len() > 0 {
            Some(points[0])
        } else {
            None
        };
        push_char(&mut text, shown_char(first));
        col = col + 1;
    }
    text
}

/// Append a cell's line up to its codepoints.
fn push_cell_head(out: &mut String, cell: Cell, row: u16, col: u16)
    ensures
        final(out)@ == old(out)@ + cell_head(cell, row as int, col as int),
{
    out.append("cell ");
    push_decimal(out, row as u64);
    out.append(" ");
    push_decimal(out, col as u64);
    out.append(" ");
    let fg = rgb(cell.foreground.r, cell.foreground.g, cell.foreground.b);
    out.append(fg.as_str());
    out.append(" ");
    let bg = rgb(cell.background.r, cell.background.g, cell.background.b);
    out.append(bg.as_str());
    out.append(" ");
    push_attributes(out, cell.attributes);
    out.append(" ");
    out.append(underline_name(cell.underline));
    out.append(" ");
    proof {
        assert(final(out)@ =~= old(out)@ + cell_head(cell, row as int, col as int));
    }
}

/// Append one cell's line.
fn push_cell(out: &mut String, frame: &Snapshot, row: u16, col: u16)
    requires
        consistent(*frame),
        row < frame.rows,
        col < frame.cols,
    ensures
        final(out)@ == old(out)@ + cell_line(*frame, row as int, col as int),
{
    let cell = cell_in(frame, row, col);
    let points = codepoints(frame, cell);
    push_cell_head(out, cell, row, col);
    let ghost head = out@;
    let mut i: usize = 0;
    while i < points.len()
        invariant
            i <= points@.len(),
            out@ == head + joined(points@, i as nat),
        decreases points@.len() - i,
    {
        if i > 0 {
            out.append(" ");
        }
        push_codepoint(out, points[i]);
        proof {
            assert(out@ =~= head + joined(points@, (i + 1) as nat));
        }
        i = i + 1;
    }
    out.append("\n");
    proof {
        assert(final(out)@ =~= old(out)@ + cell_line(*frame, row as int, col as int));
    }
}

/// Append the line that opens a row.
fn push_row_head(out: &mut String, state: Row, row: u16)
    ensures
        final(out)@ == old(out)@ + row_head(state, row as int),
{
    out.append("row ");
    push_decimal(out, row as u64);
    out.append(" flags ");
    let dirty = state.flags & 1 != 0;
    let wrapped = state.flags & 2 != 0;
    if dirty && wrapped {
        out.append("dirty,wrapped");
    } else if dirty {
        out.append("dirty");
    } else if wrapped {
        out.append("wrapped");
    } else {
        out.append("-");
    }
    out.append(" selection ");
    if state.flags & 4 == 0 {
        out.append("none");
    } else {
        push_decimal(out, state.selection_start as u64);
        out.append(" ");
        push_decimal(out, state.selection_end as u64);
    }
    out.append("\n");
    proof {
        assert(final(out)@ =~= old(out)@ + row_head(state, row as int));
    }
}

/// Append one row's lines.
fn push_row(out: &mut String, frame: &Snapshot, row: u16)
    requires
        consistent(*frame),
        row < frame.rows,
    ensures
        final(out)@ == old(out)@ + row_lines(*frame, row as int),
{
    push_row_head(out, frame.row_state[row as usize], row);
    out.append("text ");
    let text = row_text(frame, row);
    push_quoted_text(out, text.as_str());
    out.append("\n");
    let ghost head = out@;
    let mut col: u16 = 0;
    while col < frame.cols
        invariant
            consistent(*frame),
            row < frame.rows,
            col <= frame.cols,
            out@ == head + cell_lines(*frame, row as int, col as nat),
        decreases frame.cols - col,
    {
        push_cell(out, frame, row, col);
        proof {
            assert(out@ =~= head + cell_lines(*frame, row as int, (col + 1) as nat));
        }
        col = col + 1;
    }
    proof {
        assert(final(out)@ =~= old(out)@ + row_lines(*frame, row as int));
    }
}

/// Append the size, the child, the session, the dirty level and the
/// selection.
fn push_state_lines(out: &mut String, snapshot: &KtSnapshot)
    ensures
        final(out)@ == old(out)@ + state_lines(*snapshot),
{
    let frame = &snapshot.frame;
    let (child, code) = child_view(snapshot.child);
    out.append("size ");
    push_decimal(out, frame.cols as u64);
    out.append(" ");
    push_decimal(out, frame.rows as u64);
    out.append("\n");
    out.append("child ");
    let name = child_name(child, code);
    out.append(name.as_str());
    out.append("\n");
    out.append("session ");
    out.append(session_name(snapshot.session));
    out.append("\n");
    out.append("dirty ");
    out.append(dirty_name(frame.dirty));
    out.append("\n");
    out.append("selection ");
    if frame.has_selection {
        out.append("present");
    } else {
        out.append("none");
    }
    out.append("\n");
    proof {
        assert(final(out)@ =~= old(out)@ + state_lines(*snapshot));
    }
}

/// Append the cursor's line.
fn push_cursor_line(out: &mut String, frame: &Snapshot)
    ensures
        final(out)@ == old(out)@ + cursor_line(*frame),
{
    let cursor = frame.screen.cursor;
    out.append("cursor ");
    push_decimal(out, cursor.x as u64);
    out.append(" ");
    push_decimal(out, cursor.y as u64);
    out.append(" ");
    if cursor.visible {
        out.append("visible");
    } else {
        out.append("hidden");
    }
    out.append(" ");
    out.append(shape_name(cursor.shape));
    out.append("\n");
    proof {
        assert(final(out)@ =~= old(out)@ + cursor_line(*frame));
    }
}

/// Append the title, the working directory and the grapheme count.
fn push_text_lines(out: &mut String, frame: &Snapshot)
    ensures
        final(out)@ == old(out)@ + text_lines(*frame),
{
    out.append("title ");
    push_quoted_text(out, frame.screen.title.as_str());
    out.append("\n");
    out.append("pwd ");
    push_quoted_text(out, frame.screen.pwd.as_str());
    out.append("\n");
    out.append("graphemes ");
    push_decimal(out, frame.graphemes.len() as u64);
    out.append("\n");
    proof {
        assert(final(out)@ =~= old(out)@ + text_lines(*frame));
    }
}

/// Append what the screen says.
fn push_screen(out: &mut String, snapshot: &KtSnapshot)
    requires
        consistent(snapshot.frame),
    ensures
        final(out)@ == old(out)@ + screen_text(*snapshot),
{
    let frame = &snapshot.frame;
    push_state_lines(out, snapshot);
    push_cursor_line(out, frame);
    push_text_lines(out, frame);
    let ghost head = out@;
    let mut row: u16 = 0;
    while row < frame.rows
        invariant
            consistent(*frame),
            row <= frame.rows,
            out@ == head + rows_text(*frame, row as nat),
        decreases frame.rows - row,
    {
        push_row(out, frame, row);
        proof {
            assert(out@ =~= head + rows_text(*frame, (row + 1) as nat));
        }
        row = row + 1;
    }
    proof {
        assert(final(out)@ =~= old(out)@ + screen_text(*snapshot));
    }
}

/// Write out everything a session handed back: the format, what left by a
/// route other than the screen, and the screen.
pub fn describe(
    snapshot: &KtSnapshot,
    writes: &[u8],
    copies: &[Option<Vec<u8>>],
    events: &[Event],
    dropped: u64,
    wakes: u32,
) -> (text: String)
    requires
        consistent(snapshot.frame),
    ensures
        text@ == description(*snapshot, writes@, copy_views(copies@), events@, dropped, wakes),
{
    let mut out = String::new();
    out.append(FORMAT);
    out.append("\n");
    push_outbound(&mut out, writes, copies, events, dropped, wakes);
    push_screen(&mut out, snapshot);
    proof {
        assert(out@ =~= description(*snapshot, writes@, copy_views(copies@), events@, dropped, wakes));
    }
    out
}

/// A row line's flags word names every flag the row has set and no other:
/// it begins with `dirty` exactly when the row changed, ends with `wrapped`
/// exactly when it runs on into the next, and is a lone dash only when
/// neither is set.
pub proof fn law_flags_word_names_every_flag(flags: u8)
    ensures
        ({
            let text = flags_text(flags);
            &&& (flags & 1u8 != 0) <==> (text.len() >= 5 && text.subrange(0, 5) == "dirty"@)
            &&& (flags & 2u8 != 0) <==> (text.len() >= 7 && text.subrange(text.len() - 7, text.len() as int)
                == "wrapped"@)
            &&& (flags & 1u8 == 0 && flags & 2u8 == 0) <==> text == "-"@
        }),
{
    reveal_strlit("dirty,wrapped");
    reveal_strlit("dirty");
    reveal_strlit("wrapped");
    reveal_strlit("-");
    let text = flags_text(flags);
    if flags & 1u8 != 0 && flags & 2u8 != 0 {
        assert(text.subrange(0, 5) =~= "dirty"@);
        assert(text.subrange(text.len() - 7, text.len() as int) =~= "wrapped"@);
    } else if flags & 1u8 != 0 {
        assert(text.subrange(0, 5) =~= "dirty"@);
        assert(text.len() < 7);
    } else if flags & 2u8 != 0 {
        assert(text.subrange(text.len() - 7, text.len() as int) =~= "wrapped"@);
        assert(text.subrange(0, 5) != "dirty"@) by {
            assert(text.subrange(0, 5)[0] != "dirty"@[0]);
        }
    } else {
        assert(text.len() < 5);
    }
}

} // verus!

//! Writing down what a replay produced, and comparing two such descriptions.
//!
//! A description is what a golden file holds, so it has to be a total
//! function of what a consumer gets, and comparing two of them is comparing
//! text. The pieces here are the ones that make a description readable: bytes
//! quoted as themselves where they are printable, numbers and colours written
//! out, the names every enum goes by, and a report that says where two
//! descriptions part company in terms of lines rather than offsets.

use vstd::prelude::*;
use vstd::string::StringExecFns;
use vstd::string::StringSliceAdditionalSpecFns;
#[allow(unused_imports)]
use vstd::utf8::*;

use crate::boundary::{KtChildState, KtSessionState};
use crate::queue::ClipboardTarget;
use crate::snapshot::{CursorShape, Dirty, Underline};
use crate::text::push_char;

verus! {

broadcast use vstd::string::group_string_axioms;

/// The character for a digit below ten.
pub open spec fn digit(d: int) -> char
    recommends
        0 <= d < 10,
{
    (d + 48) as char
}

/// `n` written in decimal, most significant digit first.
pub open spec fn decimal(n: nat) -> Seq<char>
    decreases n,
{
    if n < 10 {
        seq![digit(n as int)]
    } else {
        decimal(n / 10) + seq![digit((n % 10) as int)]
    }
}

/// `n` written in decimal, with a minus sign in front of a negative one.
pub open spec fn signed_decimal(n: int) -> Seq<char> {
    if n < 0 {
        seq!['-'] + decimal((-n) as nat)
    } else {
        decimal(n as nat)
    }
}

/// Append `n` in decimal.
pub fn push_decimal(out: &mut String, n: u64)
    ensures
        final(out)@ == old(out)@ + decimal(n as nat),
    decreases n,
{
    if n >= 10 {
        push_decimal(out, n / 10);
    }
    let d = (n % 10) as u8;
    push_char(out, (d + 48) as char);
    proof {
        if n >= 10 {
            assert(decimal(n as nat) == decimal((n / 10) as nat) + seq![digit((n % 10) as int)]);
        }
    }
}

/// Append `n` in decimal, signed.
pub fn push_signed(out: &mut String, n: i64)
    requires
        n > i64::MIN,
    ensures
        final(out)@ == old(out)@ + signed_decimal(n as int),
{
    if n < 0 {
        push_char(out, '-');
        push_decimal(out, (-n) as u64);
        proof {
            assert(final(out)@ == old(out)@ + (seq!['-'] + decimal((-n) as nat)));
        }
    } else {
        push_decimal(out, n as u64);
    }
}

/// The lowercase hex digit for `n` below sixteen.
pub open spec fn hex_char(n: int) -> char
    recommends
        0 <= n < 16,
{
    if n < 10 {
        (n + 48) as char
    } else {
        (n - 10 + 97) as char
    }
}

/// `b` as two lowercase hex digits.
pub open spec fn hex_pair_text(b: u8) -> Seq<char> {
    seq![hex_char((b / 16) as int), hex_char((b % 16) as int)]
}

/// The lowercase hex digit for `n`.
pub fn hex_digit_char(n: u8) -> (c: char)
    requires
        n < 16,
    ensures
        c == hex_char(n as int),
{
    if n < 10 {
        (n + 48) as char
    } else {
        (n - 10 + 97) as char
    }
}

/// Append `b` as two lowercase hex digits.
pub fn push_hex_pair(out: &mut String, b: u8)
    ensures
        final(out)@ == old(out)@ + hex_pair_text(b),
{
    push_char(out, hex_digit_char(b / 16));
    push_char(out, hex_digit_char(b % 16));
}

/// How one byte of a quoted run is written: itself where it is printable
/// ASCII, a backslash before a backslash or a quote, and `\xNN` otherwise.
pub open spec fn byte_text(b: u8) -> Seq<char> {
    if b == 0x5cu8 {
        seq!['\\', '\\']
    } else if b == 0x22u8 {
        seq!['\\', '"']
    } else if 0x20 <= b <= 0x7e {
        seq![b as char]
    } else {
        seq!['\\', 'x'] + hex_pair_text(b)
    }
}

/// The bytes of a run, each written as `byte_text` writes it.
pub open spec fn bytes_text(bytes: Seq<u8>) -> Seq<char>
    decreases bytes.len(),
{
    if bytes.len() == 0 {
        Seq::empty()
    } else {
        bytes_text(bytes.drop_last()) + byte_text(bytes.last())
    }
}

/// A run of bytes in quotes.
pub open spec fn quoted_run(bytes: Seq<u8>) -> Seq<char> {
    seq!['"'] + bytes_text(bytes) + seq!['"']
}

/// Bytes as themselves where they are printable ASCII and as `\xNN` where
/// they are not, in quotes.
///
/// What a terminal answers a query with is mostly an escape sequence, and
/// this is what lets a reader see whether the answer carries what it
/// should.
pub fn quoted_bytes(bytes: &[u8]) -> (text: String)
    ensures
        text@ == quoted_run(bytes@),
{
    let mut out = String::new();
    push_char(&mut out, '"');
    let mut i: usize = 0;
    while i < bytes.len()
        invariant
            i <= bytes@.len(),
            out@ == seq!['"'] + bytes_text(bytes@.subrange(0, i as int)),
        decreases bytes@.len() - i,
    {
        let b = bytes[i];
        proof {
            let done = bytes@.subrange(0, i + 1);
            assert(done.drop_last() == bytes@.subrange(0, i as int));
            assert(done.last() == b);
        }
        if b == 0x5c {
            push_char(&mut out, '\\');
            push_char(&mut out, '\\');
        } else if b == 0x22 {
            push_char(&mut out, '\\');
            push_char(&mut out, '"');
        } else if 0x20 <= b && b <= 0x7e {
            push_char(&mut out, b as char);
        } else {
            push_char(&mut out, '\\');
            push_char(&mut out, 'x');
            push_hex_pair(&mut out, b);
        }
        i = i + 1;
    }
    proof {
        assert(bytes@.subrange(0, bytes@.len() as int) == bytes@);
    }
    push_char(&mut out, '"');
    out
}

/// How one character of quoted text is written: a backslash before a
/// backslash or a quote, itself otherwise.
pub open spec fn char_text(c: char) -> Seq<char> {
    if c == '\\' || c == '"' {
        seq!['\\', c]
    } else {
        seq![c]
    }
}

/// Text with its backslashes and quotes escaped.
pub open spec fn escaped(text: Seq<char>) -> Seq<char>
    decreases text.len(),
{
    if text.len() == 0 {
        Seq::empty()
    } else {
        escaped(text.drop_last()) + char_text(text.last())
    }
}

/// Text in quotes, its backslashes and quotes escaped.
pub fn quoted(text: &str) -> (out: String)
    ensures
        out@ == seq!['"'] + escaped(text@) + seq!['"'],
{
    let mut out = String::new();
    push_char(&mut out, '"');
    for c in it: text.chars()
        invariant
            it.seq() == text@,
            out@ == seq!['"'] + escaped(text@.take(it.index() as int)),
    {
        proof {
            assert(text@.take(it.index() + 1).drop_last() == text@.take(it.index() as int));
        }
        if c == '\\' || c == '"' {
            push_char(&mut out, '\\');
        }
        push_char(&mut out, c);
    }
    proof {
        assert(text@.take(text@.len() as int) == text@);
    }
    push_char(&mut out, '"');
    out
}

/// A colour as six lowercase hex digits.
pub open spec fn rgb_text(r: u8, g: u8, b: u8) -> Seq<char> {
    hex_pair_text(r) + hex_pair_text(g) + hex_pair_text(b)
}

/// Write a colour as six lowercase hex digits.
pub fn rgb(r: u8, g: u8, b: u8) -> (text: String)
    ensures
        text@ == rgb_text(r, g, b),
{
    let mut out = String::new();
    push_hex_pair(&mut out, r);
    push_hex_pair(&mut out, g);
    push_hex_pair(&mut out, b);
    out
}

/// The character a line's end may carry before its newline.
pub open spec fn without_cr(line: Seq<char>) -> Seq<char> {
    if line.len() > 0 && line.last() == '\r' {
        line.drop_last()
    } else {
        line
    }
}

/// The lines of `text` after `current`, which is the part of a line
/// already read: split at each newline, with a carriage return before one
/// taken off, and no empty line after a final newline.
pub open spec fn split_lines(text: Seq<char>, current: Seq<char>) -> Seq<Seq<char>>
    decreases text.len(),
{
    if text.len() == 0 {
        if current.len() == 0 {
            Seq::empty()
        } else {
            seq![current]
        }
    } else if text[0] == '\n' {
        seq![without_cr(current)] + split_lines(text.skip(1), Seq::empty())
    } else {
        split_lines(text.skip(1), current.push(text[0]))
    }
}

/// The lines of `text`, as a reader of a text file counts them.
pub open spec fn lines_of(text: Seq<char>) -> Seq<Seq<char>> {
    split_lines(text, Seq::empty())
}

/// A string read as characters.
pub open spec fn texts(lines: Seq<String>) -> Seq<Seq<char>> {
    lines.map_values(|line: String| line@)
}

/// Split `text` into its lines.
pub fn lines(text: &str) -> (out: Vec<String>)
    ensures
        texts(out@) == lines_of(text@),
{
    let mut out: Vec<String> = Vec::new();
    let mut current = String::new();
    proof {
        assert(text@.skip(0) =~= text@);
        assert(texts(out@) =~= Seq::<Seq<char>>::empty());
        assert(Seq::<Seq<char>>::empty() + lines_of(text@) =~= lines_of(text@));
    }
    for c in it: text.chars()
        invariant
            it.seq() == text@,
            lines_of(text@) == texts(out@) + split_lines(text@.skip(it.index() as int), current@),
    {
        let ghost rest = text@.skip(it.index() as int);
        let ghost before = texts(out@);
        let ghost cur = current@;
        proof {
            assert(rest[0] == c);
            assert(rest.skip(1) == text@.skip(it.index() + 1));
        }
        if c == '\n' {
            let len = current.as_str().unicode_len();
            let line = if len > 0 && current.as_str().get_char(len - 1) == '\r' {
                current.as_str().substring_char(0, len - 1).to_owned()
            } else {
                current.as_str().to_owned()
            };
            proof {
                assert(line@ == without_cr(current@));
            }
            out.push(line);
            current = String::new();
            proof {
                assert(texts(out@) =~= before.push(without_cr(cur)));
                let after = split_lines(rest.skip(1), Seq::empty());
                assert(split_lines(rest, cur) == seq![without_cr(cur)] + after);
                assert(before + (seq![without_cr(cur)] + after) =~= before.push(without_cr(cur))
                    + after);
            }
        } else {
            push_char(&mut current, c);
        }
    }
    proof {
        assert(text@.skip(text@.len() as int) == Seq::<char>::empty());
    }
    let ghost before = texts(out@);
    if current.as_str().unicode_len() > 0 {
        let ghost cur = current@;
        out.push(current);
        proof {
            assert(texts(out@) =~= before + seq![cur]);
        }
    } else {
        proof {
            assert(before + Seq::<Seq<char>>::empty() =~= before);
        }
    }
    out
}

/// Whether two texts are the same text.
pub fn same_text(a: &str, b: &str) -> (same: bool)
    ensures
        same == (a@ == b@),
{
    let x = a.as_bytes();
    let y = b.as_bytes();
    proof {
        vstd::utf8::encode_utf8_decode_utf8(a@);
        vstd::utf8::encode_utf8_decode_utf8(b@);
    }
    if x.len() != y.len() {
        return false;
    }
    let mut i: usize = 0;
    while i < x.len()
        invariant
            x@ == a.spec_bytes(),
            y@ == b.spec_bytes(),
            x@.len() == y@.len(),
            i <= x@.len(),
            forall|j: int| 0 <= j < i ==> x@[j] == y@[j],
        decreases x@.len() - i,
    {
        if x[i] != y[i] {
            return false;
        }
        i = i + 1;
    }
    proof {
        assert(x@ =~= y@);
    }
    true
}

/// Line `n` of `lines`, or none past the end.
pub open spec fn line_at(lines: Seq<Seq<char>>, n: int) -> Option<Seq<char>> {
    if 0 <= n < lines.len() {
        Some(lines[n])
    } else {
        None
    }
}

/// What a line is written as, or `absent` for a line that is not there.
pub open spec fn or_else(line: Option<Seq<char>>, absent: Seq<char>) -> Seq<char> {
    match line {
        Some(text) => text,
        None => absent,
    }
}

/// Whether line `n` differs between the two descriptions, a line only one
/// side has included.
pub open spec fn differs(want: Seq<Seq<char>>, got: Seq<Seq<char>>, n: int) -> bool {
    line_at(want, n) != line_at(got, n)
}

/// How many of the first `n` lines differ.
pub open spec fn differing(want: Seq<Seq<char>>, got: Seq<Seq<char>>, n: nat) -> nat
    decreases n,
{
    if n == 0 {
        0
    } else {
        differing(want, got, (n - 1) as nat) + if differs(want, got, n - 1) {
            1nat
        } else {
            0nat
        }
    }
}

/// How many differing lines a report lists before it only counts the rest.
pub const SHOWN: usize = 12;

/// The entry a report gives differing line `k`: its number, counted from
/// one, and both sides.
pub open spec fn entry(want: Seq<Seq<char>>, got: Seq<Seq<char>>, k: nat) -> Seq<char> {
    entry_text(k, line_at(want, k as int), line_at(got, k as int))
}

/// The entry for line `k`, given what each side has there.
pub open spec fn entry_text(k: nat, mine: Option<Seq<char>>, theirs: Option<Seq<char>>) -> Seq<char> {
    "  line "@ + decimal(k + 1) + ":\n"@ + "    golden   "@ + or_else(mine, "<missing>"@) + "\n"@
        + "    produced "@ + or_else(theirs, "<missing>"@) + "\n"@
}

/// A line that may be missing, read as characters.
pub open spec fn line_text(line: Option<&String>) -> Option<Seq<char>> {
    match line {
        Some(l) => Some(l@),
        None => None,
    }
}

/// The entries for the first `n` lines: one for each that differs, as long
/// as fewer than the shown count differed before it.
pub open spec fn listed(want: Seq<Seq<char>>, got: Seq<Seq<char>>, n: nat) -> Seq<char>
    decreases n,
{
    if n == 0 {
        Seq::empty()
    } else {
        listed(want, got, (n - 1) as nat) + if differs(want, got, n - 1) && differing(want, got, n)
            <= SHOWN {
            entry(want, got, (n - 1) as nat)
        } else {
            Seq::empty()
        }
    }
}

/// What a report says where the first lines differ: the two were written
/// in different formats, and diffing them line by line says nothing.
pub open spec fn format_report(want: Seq<Seq<char>>, got: Seq<Seq<char>>) -> Seq<char> {
    "the golden was written in a different format\n"@ + "  golden   "@ + or_else(
        line_at(want, 0),
        "<empty>"@,
    ) + "\n"@ + "  produced "@ + or_else(line_at(got, 0), "<empty>"@) + "\n"@
}

/// What a report says of two descriptions in the same format: the lines
/// that differ, up to the shown count, and how many more there are.
pub open spec fn lines_report(want: Seq<Seq<char>>, got: Seq<Seq<char>>) -> Seq<char> {
    let total = if want.len() >= got.len() {
        want.len()
    } else {
        got.len()
    };
    let count = differing(want, got, total);
    "the screen does not match the golden\n"@ + listed(want, got, total) + if count > SHOWN {
        "  ... and "@ + decimal((count - SHOWN) as nat) + " more lines\n"@
    } else {
        Seq::empty()
    }
}

/// Where two descriptions part company, or nothing when they do not.
pub open spec fn report_of(golden: Seq<char>, produced: Seq<char>) -> Option<Seq<char>> {
    if golden == produced {
        None
    } else if line_at(lines_of(golden), 0) != line_at(lines_of(produced), 0) {
        Some(format_report(lines_of(golden), lines_of(produced)))
    } else {
        Some(lines_report(lines_of(golden), lines_of(produced)))
    }
}

/// Line `n` of `lines` as text, if there is one.
fn line_view(lines: &Vec<String>, n: usize) -> (line: Option<&String>)
    ensures
        match line {
            Some(l) => line_at(texts(lines@), n as int) == Some(l@),
            None => line_at(texts(lines@), n as int) is None,
        },
{
    if n < lines.len() {
        Some(&lines[n])
    } else {
        None
    }
}

/// Whether two lines, either of which may be missing, are the same.
fn same_line(a: Option<&String>, b: Option<&String>) -> (same: bool)
    ensures
        same == (match (a, b) {
            (Some(x), Some(y)) => x@ == y@,
            (None, None) => true,
            _ => false,
        }),
{
    match (a, b) {
        (Some(x), Some(y)) => same_text(x.as_str(), y.as_str()),
        (None, None) => true,
        _ => false,
    }
}

/// Append a line, or `absent` for one that is not there.
fn push_line(out: &mut String, line: Option<&String>, absent: &str)
    ensures
        final(out)@ == old(out)@ + match line {
            Some(l) => l@,
            None => absent@,
        },
{
    match line {
        Some(l) => out.append(l.as_str()),
        None => out.append(absent),
    }
}

/// Append the entry for differing line `k`.
fn push_entry(report: &mut String, k: usize, mine: Option<&String>, theirs: Option<&String>)
    requires
        k < usize::MAX,
    ensures
        final(report)@ == old(report)@ + entry_text(k as nat, line_text(mine), line_text(theirs)),
{
    report.append("  line ");
    push_decimal(report, (k + 1) as u64);
    report.append(":\n");
    report.append("    golden   ");
    push_line(report, mine, "<missing>");
    report.append("\n");
    report.append("    produced ");
    push_line(report, theirs, "<missing>");
    report.append("\n");
    proof {
        assert(final(report)@ =~= old(report)@ + entry_text(k as nat, line_text(mine), line_text(
            theirs,
        )));
    }
}

/// Say where two descriptions part company, in terms of the screen rather
/// than of byte offsets, or nothing when they are the same.
///
/// Every cell line names its own row and column, so quoting the lines that
/// differ is already the answer to what changed where. A golden written in
/// another format differs on every line, so its first line — which says
/// which format wrote it — is what the report shows instead.
pub fn diff(golden: &str, produced: &str) -> (report: Option<String>)
    ensures
        match report {
            Some(r) => report_of(golden@, produced@) == Some(r@),
            None => report_of(golden@, produced@) is None,
        },
{
    if same_text(golden, produced) {
        return None;
    }
    let want = lines(golden);
    let got = lines(produced);
    let ghost w = texts(want@);
    let ghost g = texts(got@);
    let first_want = line_view(&want, 0);
    let first_got = line_view(&got, 0);
    if !same_line(first_want, first_got) {
        let mut report = String::new();
        report.append("the golden was written in a different format\n");
        report.append("  golden   ");
        push_line(&mut report, first_want, "<empty>");
        report.append("\n");
        report.append("  produced ");
        push_line(&mut report, first_got, "<empty>");
        report.append("\n");
        return Some(report);
    }
    let mut report = String::new();
    report.append("the screen does not match the golden\n");
    let ghost head = report@;
    let total = if want.len() >= got.len() {
        want.len()
    } else {
        got.len()
    };
    let mut count: usize = 0;
    let mut number: usize = 0;
    while number < total
        invariant
            w == texts(want@),
            g == texts(got@),
            total == if w.len() >= g.len() {
                w.len()
            } else {
                g.len()
            },
            number <= total,
            count == differing(w, g, number as nat),
            count <= number,
            report@ == head + listed(w, g, number as nat),
        decreases total - number,
    {
        let mine = line_view(&want, number);
        let theirs = line_view(&got, number);
        let ghost before = report@;
        proof {
            assert(line_text(mine) == line_at(w, number as int));
            assert(line_text(theirs) == line_at(g, number as int));
            assert(differing(w, g, (number + 1) as nat) == differing(w, g, number as nat) + if differs(
                w,
                g,
                number as int,
            ) {
                1nat
            } else {
                0nat
            });
        }
        if !same_line(mine, theirs) {
            count = count + 1;
            if count <= SHOWN {
                push_entry(&mut report, number, mine, theirs);
            }
        }
        proof {
            assert(listed(w, g, (number + 1) as nat) == listed(w, g, number as nat) + if differs(
                w,
                g,
                number as int,
            ) && differing(w, g, (number + 1) as nat) <= SHOWN {
                entry(w, g, number as nat)
            } else {
                Seq::empty()
            });
            assert(report@ =~= head + listed(w, g, (number + 1) as nat));
        }
        number = number + 1;
    }
    if count > SHOWN {
        report.append("  ... and ");
        push_decimal(&mut report, (count - SHOWN) as u64);
        report.append(" more lines\n");
    }
    proof {
        assert(report@ =~= lines_report(w, g));
    }
    Some(report)
}

/// What a clipboard is called in a description.
pub open spec fn target_text(target: ClipboardTarget) -> Seq<char> {
    match target {
        ClipboardTarget::Standard => "standard"@,
        ClipboardTarget::Selection => "selection"@,
        ClipboardTarget::Primary => "primary"@,
    }
}

/// The name of a clipboard.
pub fn clipboard_target_name(target: ClipboardTarget) -> (name: &'static str)
    ensures
        name@ == target_text(target),
{
    match target {
        ClipboardTarget::Standard => "standard",
        ClipboardTarget::Selection => "selection",
        ClipboardTarget::Primary => "primary",
    }
}

/// What a child's state is called in a description, its exit code after
/// it when it has one.
pub open spec fn child_text(child: KtChildState, exit_code: i32) -> Seq<char> {
    match child {
        KtChildState::NoChild => "none"@,
        KtChildState::Running => "running"@,
        KtChildState::Exited => "exited "@ + signed_decimal(exit_code as int),
    }
}

/// The name of a child's state.
pub fn child_name(child: KtChildState, exit_code: i32) -> (name: String)
    ensures
        name@ == child_text(child, exit_code),
{
    let mut name = String::new();
    match child {
        KtChildState::NoChild => name.append("none"),
        KtChildState::Running => name.append("running"),
        KtChildState::Exited => {
            name.append("exited ");
            push_signed(&mut name, exit_code as i64);
        },
    }
    name
}

/// What a session's state is called in a description.
pub open spec fn session_text(session: KtSessionState) -> Seq<char> {
    match session {
        KtSessionState::Working => "ok"@,
        KtSessionState::Broken => "broken"@,
    }
}

/// The name of a session's state.
pub fn session_name(session: KtSessionState) -> (name: &'static str)
    ensures
        name@ == session_text(session),
{
    match session {
        KtSessionState::Working => "ok",
        KtSessionState::Broken => "broken",
    }
}

/// What a dirty level is called in a description.
pub open spec fn dirty_text(dirty: Dirty) -> Seq<char> {
    match dirty {
        Dirty::Clean => "clean"@,
        Dirty::Partial => "partial"@,
        Dirty::Full => "full"@,
    }
}

/// The name of a dirty level.
pub fn dirty_name(dirty: Dirty) -> (name: &'static str)
    ensures
        name@ == dirty_text(dirty),
{
    match dirty {
        Dirty::Clean => "clean",
        Dirty::Partial => "partial",
        Dirty::Full => "full",
    }
}

/// What a cursor shape is called in a description.
pub open spec fn shape_text(shape: CursorShape) -> Seq<char> {
    match shape {
        CursorShape::Block => "block"@,
        CursorShape::Bar => "bar"@,
        CursorShape::Underline => "underline"@,
        CursorShape::BlockHollow => "block-hollow"@,
        CursorShape::Unknown => "unknown"@,
    }
}

/// The name of a cursor shape.
pub fn shape_name(shape: CursorShape) -> (name: &'static str)
    ensures
        name@ == shape_text(shape),
{
    match shape {
        CursorShape::Block => "block",
        CursorShape::Bar => "bar",
        CursorShape::Underline => "underline",
        CursorShape::BlockHollow => "block-hollow",
        CursorShape::Unknown => "unknown",
    }
}

/// What an underline is called in a description.
pub open spec fn underline_text(underline: Underline) -> Seq<char> {
    match underline {
        Underline::NoUnderline => "none"@,
        Underline::Single => "single"@,
        Underline::Double => "double"@,
        Underline::Curly => "curly"@,
        Underline::Dotted => "dotted"@,
        Underline::Dashed => "dashed"@,
        Underline::Unknown => "unknown"@,
    }
}

/// The name of an underline.
pub fn underline_name(underline: Underline) -> (name: &'static str)
    ensures
        name@ == underline_text(underline),
{
    match underline {
        Underline::NoUnderline => "none",
        Underline::Single => "single",
        Underline::Double => "double",
        Underline::Curly => "curly",
        Underline::Dotted => "dotted",
        Underline::Dashed => "dashed",
        Underline::Unknown => "unknown",
    }
}

/// Two descriptions differ exactly when they are not the same text: a
/// report comes back for every difference, a final newline included, and
/// for nothing else.
pub proof fn law_only_identical_descriptions_do_not_differ(golden: Seq<char>, produced: Seq<char>)
    ensures
        report_of(golden, produced) is None <==> golden == produced,
{
}

/// Each clipboard has a name of its own in a description: two that read
/// the same are the same, so a description never says one for another.
pub proof fn law_target_names_are_distinct(a: ClipboardTarget, b: ClipboardTarget)
    ensures
        target_text(a) == target_text(b) ==> a == b,
{
    reveal_strlit("primary");
    reveal_strlit("selection");
    reveal_strlit("standard");
    assert("standard"@ != "selection"@) by {
        assert("standard"@.len() != "selection"@.len());
    }
    assert("standard"@ != "primary"@) by {
        assert("standard"@.len() != "primary"@.len());
    }
    assert("selection"@ != "primary"@) by {
        assert("selection"@.len() != "primary"@.len());
    }
}

/// Each session state has a name of its own in a description: two that read
/// the same are the same, so a description never says one for another.
pub proof fn law_session_names_are_distinct(a: KtSessionState, b: KtSessionState)
    ensures
        session_text(a) == session_text(b) ==> a == b,
{
    reveal_strlit("broken");
    reveal_strlit("ok");
    assert("ok"@ != "broken"@) by {
        assert("ok"@.len() != "broken"@.len());
    }
}

/// Each dirty level has a name of its own in a description: two that read
/// the same are the same, so a description never says one for another.
pub proof fn law_dirty_names_are_distinct(a: Dirty, b: Dirty)
    ensures
        dirty_text(a) == dirty_text(b) ==> a == b,
{
    reveal_strlit("clean");
    reveal_strlit("full");
    reveal_strlit("partial");
    assert("clean"@ != "partial"@) by {
        assert("clean"@.len() != "partial"@.len());
    }
    assert("clean"@ != "full"@) by {
        assert("clean"@.len() != "full"@.len());
    }
    assert("partial"@ != "full"@) by {
        assert("partial"@.len() != "full"@.len());
    }
}

/// Each cursor shape has a name of its own in a description: two that read
/// the same are the same, so a description never says one for another.
pub proof fn law_shape_names_are_distinct(a: CursorShape, b: CursorShape)
    ensures
        shape_text(a) == shape_text(b) ==> a == b,
{
    reveal_strlit("bar");
    reveal_strlit("block");
    reveal_strlit("block-hollow");
    reveal_strlit("underline");
    reveal_strlit("unknown");
    assert("block"@ != "bar"@) by {
        assert("block"@.len() != "bar"@.len());
    }
    assert("block"@ != "underline"@) by {
        assert("block"@.len() != "underline"@.len());
    }
    assert("block"@ != "block-hollow"@) by {
        assert("block"@.len() != "block-hollow"@.len());
    }
    assert("block"@ != "unknown"@) by {
        assert("block"@.len() != "unknown"@.len());
    }
    assert("bar"@ != "underline"@) by {
        assert("bar"@.len() != "underline"@.len());
    }
    assert("bar"@ != "block-hollow"@) by {
        assert("bar"@.len() != "block-hollow"@.len());
    }
    assert("bar"@ != "unknown"@) by {
        assert("bar"@.len() != "unknown"@.len());
    }
    assert("underline"@ != "block-hollow"@) by {
        assert("underline"@.len() != "block-hollow"@.len());
    }
    assert("underline"@ != "unknown"@) by {
        assert("underline"@.len() != "unknown"@.len());
    }
    assert("block-hollow"@ != "unknown"@) by {
        assert("block-hollow"@.len() != "unknown"@.len());
    }
}

/// Each underline has a name of its own in a description: two that read
/// the same are the same, so a description never says one for another.
pub proof fn law_underline_names_are_distinct(a: Underline, b: Underline)
    ensures
        underline_text(a) == underline_text(b) ==> a == b,
{
    reveal_strlit("curly");
    reveal_strlit("dashed");
    reveal_strlit("dotted");
    reveal_strlit("double");
    reveal_strlit("none");
    reveal_strlit("single");
    reveal_strlit("unknown");
    assert("none"@ != "single"@) by {
        assert("none"@.len() != "single"@.len());
    }
    assert("none"@ != "double"@) by {
        assert("none"@.len() != "double"@.len());
    }
    assert("none"@ != "curly"@) by {
        assert("none"@.len() != "curly"@.len());
    }
    assert("none"@ != "dotted"@) by {
        assert("none"@.len() != "dotted"@.len());
    }
    assert("none"@ != "dashed"@) by {
        assert("none"@.len() != "dashed"@.len());
    }
    assert("none"@ != "unknown"@) by {
        assert("none"@.len() != "unknown"@.len());
    }
    assert("single"@ != "double"@) by {
        assert("single"@[0] != "double"@[0]);
    }
    assert("single"@ != "curly"@) by {
        assert("single"@.len() != "curly"@.len());
    }
    assert("single"@ != "dotted"@) by {
        assert("single"@[0] != "dotted"@[0]);
    }
    assert("single"@ != "dashed"@) by {
        assert("single"@[0] != "dashed"@[0]);
    }
    assert("single"@ != "unknown"@) by {
        assert("single"@.len() != "unknown"@.len());
    }
    assert("double"@ != "curly"@) by {
        assert("double"@.len() != "curly"@.len());
    }
    assert("double"@ != "dotted"@) by {
        assert("double"@[2] != "dotted"@[2]);
    }
    assert("double"@ != "dashed"@) by {
        assert("double"@[1] != "dashed"@[1]);
    }
    assert("double"@ != "unknown"@) by {
        assert("double"@.len() != "unknown"@.len());
    }
    assert("curly"@ != "dotted"@) by {
        assert("curly"@.len() != "dotted"@.len());
    }
    assert("curly"@ != "dashed"@) by {
        assert("curly"@.len() != "dashed"@.len());
    }
    assert("curly"@ != "unknown"@) by {
        assert("curly"@.len() != "unknown"@.len());
    }
    assert("dotted"@ != "dashed"@) by {
        assert("dotted"@[1] != "dashed"@[1]);
    }
    assert("dotted"@ != "unknown"@) by {
        assert("dotted"@.len() != "unknown"@.len());
    }
    assert("dashed"@ != "unknown"@) by {
        assert("dashed"@.len() != "unknown"@.len());
    }
}

} // verus!

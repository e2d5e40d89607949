//! What a capture says about the screen outside the grid: the title and the
//! working directory, made safe and reduced to what their fields promise.

use vstd::prelude::*;
use vstd::string::StrSliceExecFns;
use vstd::string::StringSliceAdditionalSpecFns;
#[allow(unused_imports)]
use vstd::utf8::*;

use crate::snapshot::{Dirty, ScreenState, screen_view};
use crate::text::{push_char, utf8_string};

verus! {

broadcast use vstd::string::group_string_axioms;

/// Whether `c` is a control character: general category `Cc`, which is
/// U+0000 to U+001F and U+007F to U+009F.
pub open spec fn is_control(c: char) -> bool {
    (c as u32) <= 0x1f || (0x7f <= (c as u32) && (c as u32) <= 0x9f)
}

/// Whether `c` is a control character.
pub fn is_control_char(c: char) -> (control: bool)
    ensures
        control == is_control(c),
{
    let code = c as u32;
    code <= 0x1f || (0x7f <= code && code <= 0x9f)
}

/// `text` with every control character taken out, newlines included.
///
/// These values come from the program on the other end, which is untrusted,
/// and they end up in window titles and restore files.
pub fn without_control_characters(text: &str) -> (clean: String)
    ensures
        clean@ == text@.filter(|c: char| !is_control(c)),
{
    let mut clean = String::new();
    for c in it: text.chars()
        invariant
            it.seq() == text@,
            clean@ == text@.take(it.index() as int).filter(|c: char| !is_control(c)),
    {
        proof {
            assert(text@.take(it.index() + 1).drop_last() == text@.take(it.index() as int));
            reveal_with_fuel(Seq::filter, 1);
        }
        if !is_control_char(c) {
            push_char(&mut clean, c);
        }
    }
    proof {
        assert(text@.take(text@.len() as int) == text@);
    }
    clean
}

/// Whether `b` is an ASCII hex digit.
pub open spec fn is_hex(b: u8) -> bool {
    (0x30 <= b <= 0x39) || (0x41 <= b <= 0x46) || (0x61 <= b <= 0x66)
}

/// The value of the hex digit `b`.
pub open spec fn hex_value(b: u8) -> u8 {
    if 0x30 <= b <= 0x39 {
        (b - 0x30) as u8
    } else if 0x41 <= b <= 0x46 {
        (b - 0x41 + 10) as u8
    } else {
        (b - 0x61 + 10) as u8
    }
}

/// Whether `bytes` begins with a `%` followed by two hex digits.
pub open spec fn starts_with_escape(bytes: Seq<u8>) -> bool {
    bytes.len() >= 3 && bytes[0] == 0x25u8 && is_hex(bytes[1]) && is_hex(bytes[2])
}

/// `bytes` with every `%` and two hex digits after it replaced by the byte
/// they spell. A `%` not followed by two hex digits stands for itself.
pub open spec fn percent_decode(bytes: Seq<u8>) -> Seq<u8>
    decreases bytes.len(),
{
    if bytes.len() == 0 {
        Seq::empty()
    } else if starts_with_escape(bytes) {
        seq![(hex_value(bytes[1]) * 16 + hex_value(bytes[2])) as u8] + percent_decode(bytes.skip(3))
    } else {
        seq![bytes[0]] + percent_decode(bytes.skip(1))
    }
}

/// Whether `b` is an ASCII hex digit.
pub fn is_hex_digit(b: u8) -> (hex: bool)
    ensures
        hex == is_hex(b),
{
    (0x30 <= b && b <= 0x39) || (0x41 <= b && b <= 0x46) || (0x61 <= b && b <= 0x66)
}

/// The value of the hex digit `b`.
pub fn hex_digit_value(b: u8) -> (value: u8)
    requires
        is_hex(b),
    ensures
        value == hex_value(b),
        value < 16,
{
    if 0x30 <= b && b <= 0x39 {
        b - 0x30
    } else if 0x41 <= b && b <= 0x46 {
        b - 0x41 + 10
    } else {
        b - 0x61 + 10
    }
}

/// The bytes `percent_decode` makes of `bytes`.
fn percent_decoded_bytes(bytes: &[u8]) -> (decoded: Vec<u8>)
    ensures
        decoded@ == percent_decode(bytes@),
{
    let mut decoded: Vec<u8> = Vec::new();
    let mut index: usize = 0;
    proof {
        assert(bytes@.skip(0) == bytes@);
    }
    while index < bytes.len()
        invariant
            index <= bytes@.len(),
            percent_decode(bytes@) == decoded@ + percent_decode(bytes@.skip(index as int)),
        decreases bytes@.len() - index,
    {
        let rest = Ghost(bytes@.skip(index as int));
        if bytes[index] == 0x25 && bytes.len() - index > 2 && is_hex_digit(bytes[index + 1])
            && is_hex_digit(bytes[index + 2]) {
            let high = hex_digit_value(bytes[index + 1]);
            let low = hex_digit_value(bytes[index + 2]);
            proof {
                assert(rest@[0] == bytes@[index as int]);
                assert(rest@[1] == bytes@[index + 1]);
                assert(rest@[2] == bytes@[index + 2]);
                assert(starts_with_escape(rest@));
                assert(rest@.skip(3) == bytes@.skip(index + 3));
                assert(decoded@.push((high * 16 + low) as u8) + percent_decode(bytes@.skip(index + 3))
                    == decoded@ + (seq![(high * 16 + low) as u8] + percent_decode(rest@.skip(3))));
            }
            decoded.push(high * 16 + low);
            index = index + 3;
        } else {
            proof {
                assert(rest@[0] == bytes@[index as int]);
                if rest@.len() >= 3 {
                    assert(rest@[1] == bytes@[index + 1]);
                    assert(rest@[2] == bytes@[index + 2]);
                }
                assert(!starts_with_escape(rest@));
                assert(rest@.skip(1) == bytes@.skip(index + 1));
                assert(decoded@.push(bytes@[index as int]) + percent_decode(bytes@.skip(index + 1))
                    == decoded@ + (seq![bytes@[index as int]] + percent_decode(rest@.skip(1))));
            }
            decoded.push(bytes[index]);
            index = index + 1;
        }
    }
    proof {
        assert(decoded@ + percent_decode(Seq::<u8>::empty()) == decoded@);
        assert(bytes@.skip(index as int) == Seq::<u8>::empty());
    }
    decoded
}

/// The text `bytes` decode to, if what they decode to is UTF-8.
pub open spec fn decoded_text(bytes: Seq<u8>) -> Option<Seq<char>> {
    if valid_utf8(bytes) {
        Some(decode_utf8(bytes))
    } else {
        None
    }
}

/// Undo the percent escapes of `encoded`.
///
/// A decoding that does not spell UTF-8 is not text that can be offered,
/// and handing back the still-encoded text would be a different lie.
pub fn percent_decoded(encoded: &str) -> (decoded: Option<String>)
    ensures
        decoded matches Some(s) ==> decoded_text(percent_decode(encoded.spec_bytes())) == Some(s@),
        decoded is None ==> decoded_text(percent_decode(encoded.spec_bytes())) is None,
{
    percent_decoded_text(encoded.as_bytes())
}

/// Undo the percent escapes of `bytes`, as text.
fn percent_decoded_text(bytes: &[u8]) -> (decoded: Option<String>)
    ensures
        decoded matches Some(s) ==> decoded_text(percent_decode(bytes@)) == Some(s@),
        decoded is None ==> decoded_text(percent_decode(bytes@)) is None,
{
    utf8_string(percent_decoded_bytes(bytes))
}

/// `file://`, the scheme an OSC 7 report is written in.
pub open spec fn file_scheme() -> Seq<u8> {
    seq![0x66u8, 0x69, 0x6c, 0x65, 0x3a, 0x2f, 0x2f]
}

/// Whether `k` is where the first `/` of `bytes` is.
pub open spec fn is_first_slash(bytes: Seq<u8>, k: int) -> bool {
    0 <= k < bytes.len() && bytes[k] == 0x2fu8 && forall|j: int| 0 <= j < k ==> bytes[j] != 0x2fu8
}

/// The path a working directory report names, as bytes: an OSC 7 `file://`
/// URI with its authority dropped and its escapes undone, or a bare path as
/// it stands. A URI with no path names none.
pub open spec fn reported_path(reported: Seq<u8>) -> Option<Seq<u8>> {
    if reported.len() >= 7 && reported.subrange(0, 7) == file_scheme() {
        let after = reported.skip(7);
        if exists|k: int| is_first_slash(after, k) {
            let k = choose|k: int| is_first_slash(after, k);
            Some(percent_decode(after.skip(k)))
        } else {
            None
        }
    } else {
        Some(reported)
    }
}

/// The first `/` in `bytes`, if there is one.
fn first_slash(bytes: &[u8]) -> (found: Option<usize>)
    ensures
        found matches Some(k) ==> is_first_slash(bytes@, k as int),
        found is None ==> !exists|k: int| is_first_slash(bytes@, k),
{
    let mut i: usize = 0;
    while i < bytes.len()
        invariant
            i <= bytes@.len(),
            forall|j: int| 0 <= j < i ==> bytes@[j] != 0x2fu8,
        decreases bytes@.len() - i,
    {
        if bytes[i] == 0x2f {
            return Some(i);
        }
        i = i + 1;
    }
    proof {
        assert forall|k: int| !is_first_slash(bytes@, k) by {
            if 0 <= k < bytes@.len() {
                assert(bytes@[k] != 0x2fu8);
            }
        }
    }
    None
}

/// Read a working directory report: OSC 7 reports a `file://` URI, OSC 1337
/// a bare path, which needs no undoing.
///
/// The authority is dropped: a path reported by another host is taken at
/// face value.
pub fn decoded_path(reported: &str) -> (path: Option<String>)
    ensures
        path matches Some(s) ==> reported_path(reported.spec_bytes()) matches Some(p) && decoded_text(p)
            == Some(s@),
        path is None ==> match reported_path(reported.spec_bytes()) {
            None => true,
            Some(p) => decoded_text(p) is None,
        },
{
    let bytes = reported.as_bytes();
    if bytes.len() >= 7 && bytes[0] == 0x66 && bytes[1] == 0x69 && bytes[2] == 0x6c && bytes[3]
        == 0x65 && bytes[4] == 0x3a && bytes[5] == 0x2f && bytes[6] == 0x2f {
        proof {
            assert(bytes@.subrange(0, 7) =~= file_scheme());
        }
        let after = vstd::slice::slice_subrange(bytes, 7, bytes.len());
        proof {
            assert(after@ =~= bytes@.skip(7));
        }
        match first_slash(after) {
            None => None,
            Some(k) => {
                proof {
                    let chosen = choose|j: int| is_first_slash(after@, j);
                    assert(is_first_slash(after@, chosen));
                    if chosen < k as int {
                        assert(after@[chosen] != 0x2fu8);
                    }
                    if chosen > k as int {
                        assert(after@[k as int] != 0x2fu8);
                    }
                    assert(chosen == k as int);
                }
                let encoded = vstd::slice::slice_subrange(after, k, after.len());
                proof {
                    assert(encoded@ =~= after@.skip(k as int));
                }
                percent_decoded_text(encoded)
            },
        }
    } else {
        proof {
            if bytes@.len() >= 7 && bytes@.subrange(0, 7) == file_scheme() {
                assert(bytes@[0] == bytes@.subrange(0, 7)[0]);
                assert(bytes@[1] == bytes@.subrange(0, 7)[1]);
                assert(bytes@[2] == bytes@.subrange(0, 7)[2]);
                assert(bytes@[3] == bytes@.subrange(0, 7)[3]);
                assert(bytes@[4] == bytes@.subrange(0, 7)[4]);
                assert(bytes@[5] == bytes@.subrange(0, 7)[5]);
                assert(bytes@[6] == bytes@.subrange(0, 7)[6]);
            }
            broadcast use vstd::utf8::encode_utf8_valid_utf8, vstd::utf8::encode_utf8_decode_utf8;
            assert(valid_utf8(reported.spec_bytes()));
            assert(decode_utf8(reported.spec_bytes()) == reported@);
        }
        Some(reported.to_owned())
    }
}

/// The absolute path a working directory report names, or nothing when it
/// names none: what a consumer gets is an absolute path or empty.
pub open spec fn absolute_path(reported: Seq<u8>) -> Seq<char> {
    match reported_path(reported) {
        Some(p) => match decoded_text(p) {
            Some(text) => if text.len() > 0 && text[0] == '/' {
                text
            } else {
                Seq::empty()
            },
            None => Seq::empty(),
        },
        None => Seq::empty(),
    }
}

/// Reduce a working directory report to an absolute path.
///
/// The field promises an absolute path, so a report that does not yield one
/// — a relative directory, a URI with no path, an escape that does not spell
/// UTF-8 — publishes nothing rather than something a consumer would have to
/// second-guess.
pub fn path_of(reported: &str) -> (path: String)
    ensures
        path@ == absolute_path(reported.spec_bytes()),
{
    match decoded_path(reported) {
        Some(path) => {
            let text = path.as_str();
            if text.unicode_len() > 0 && text.get_char(0) == '/' {
                path
            } else {
                String::new()
            }
        },
        None => String::new(),
    }
}

/// Whether a capture is worth publishing: asked for whatever the screen
/// did, or something changed — rows, or what is outside the grid.
pub fn worth_publishing(dirty: Dirty, screen: &ScreenState, previous: &ScreenState, even_if_unchanged: bool) -> (worth: bool)
    ensures
        worth == (even_if_unchanged || dirty != Dirty::Clean || screen_view(*screen) != screen_view(
            *previous,
        )),
{
    even_if_unchanged || dirty != Dirty::Clean || !screen.same_as(previous)
}

/// A title or working directory holds no control characters once they are
/// taken out: whatever the child put there, nothing in it is read as a
/// command by whoever shows it.
pub proof fn law_cleaned_text_holds_no_control_characters(text: Seq<char>, i: int)
    requires
        0 <= i < text.filter(|c: char| !is_control(c)).len(),
    ensures
        !is_control(text.filter(|c: char| !is_control(c))[i]),
{
    text.filter_lemma(|c: char| !is_control(c));
}

/// What a working directory report publishes is an absolute path or
/// nothing: never a relative path a consumer would have to resolve.
pub proof fn law_published_directory_is_absolute_or_empty(reported: Seq<u8>)
    ensures
        absolute_path(reported).len() == 0 || absolute_path(reported)[0] == '/',
{
}

/// The text a decoded path publishes as: itself when it is absolute, and
/// nothing otherwise.
pub open spec fn published_text(decoded: Option<Seq<char>>) -> Seq<char> {
    match decoded {
        Some(text) => if text.len() > 0 && text[0] == '/' {
            text
        } else {
            Seq::empty()
        },
        None => Seq::empty(),
    }
}

/// A `file://` URI loses its scheme and its authority, whatever host that
/// names, and what is left from the first `/` on is percent-decoded before
/// it is published.
pub proof fn law_uri_publishes_its_decoded_path(authority: Seq<u8>, path: Seq<u8>)
    requires
        forall|j: int| 0 <= j < authority.len() ==> authority[j] != 0x2fu8,
        path.len() > 0,
        path[0] == 0x2fu8,
    ensures
        absolute_path(file_scheme() + authority + path) == published_text(
            decoded_text(percent_decode(path)),
        ),
{
    let reported = file_scheme() + authority + path;
    assert(reported.subrange(0, 7) =~= file_scheme());
    let after = reported.skip(7);
    assert(after =~= authority + path);
    let k = authority.len() as int;
    assert(is_first_slash(after, k));
    let chosen = choose|j: int| is_first_slash(after, j);
    assert(is_first_slash(after, chosen));
    if chosen < k {
        assert(after[chosen] == authority[chosen]);
    }
    if chosen > k {
        assert(after[k] != 0x2fu8);
    }
    assert(after.skip(k) =~= path);
}

/// A bare path, which is what OSC 1337 reports, is published as it stands:
/// nothing in it is decoded.
pub proof fn law_bare_path_is_kept_as_it_stands(reported: Seq<u8>)
    requires
        !(reported.len() >= 7 && reported.subrange(0, 7) == file_scheme()),
        valid_utf8(reported),
        decode_utf8(reported).len() > 0,
        decode_utf8(reported)[0] == '/',
    ensures
        absolute_path(reported) == decode_utf8(reported),
{
}

/// A byte written as a percent escape, `%` and two hex digits high digit
/// first, decodes back to that byte.
pub proof fn law_escaped_byte_decodes_to_itself(byte: u8)
    ensures
        percent_decode(
            seq![
                0x25u8,
                crate::config::hex_digit_of(byte as int / 16),
                crate::config::hex_digit_of(byte as int % 16),
            ],
        ) == seq![byte],
{
    let v = byte as int;
    let escaped = seq![
        0x25u8,
        crate::config::hex_digit_of(v / 16),
        crate::config::hex_digit_of(v % 16),
    ];
    assert((v / 16) * 16 + v % 16 == v);
    assert(starts_with_escape(escaped));
    assert(escaped.skip(3) =~= Seq::<u8>::empty());
    assert(percent_decode(escaped.skip(3)) =~= Seq::<u8>::empty());
    assert(percent_decode(escaped) =~= seq![byte]);
}

/// Text with no `%` in it has nothing to decode: it comes back as it is.
pub proof fn law_text_without_escapes_is_unchanged(bytes: Seq<u8>)
    requires
        forall|i: int| 0 <= i < bytes.len() ==> bytes[i] != 0x25u8,
    ensures
        percent_decode(bytes) == bytes,
    decreases bytes.len(),
{
    if bytes.len() > 0 {
        law_text_without_escapes_is_unchanged(bytes.skip(1));
        assert(seq![bytes[0]] + bytes.skip(1) =~= bytes);
    }
}

} // verus!

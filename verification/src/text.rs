//! Text as this crate reads and writes it: what std says of its own string
//! calls, and the small facts about characters the rest leans on.

use vstd::prelude::*;
#[allow(unused_imports)]
use vstd::utf8::*;

verus! {

/// `String::push`: appends one character to the end of the string.
#[verifier::external_body]
pub(crate) fn push_char(text: &mut String, c: char)
    ensures
        final(text)@ == old(text)@.push(c),
{
    text.push(c);
}

/// `std::str::from_utf8`: the bytes as a string slice when they are valid
/// UTF-8, and nothing when they are not.
#[verifier::external_body]
pub(crate) fn utf8_str(bytes: &[u8]) -> (text: Option<&str>)
    ensures
        text is Some <==> valid_utf8(bytes@),
        text matches Some(s) ==> s@ == decode_utf8(bytes@),
{
    std::str::from_utf8(bytes).ok()
}

/// `String::from_utf8`: the bytes as an owned string when they are valid
/// UTF-8, and nothing when they are not.
#[verifier::external_body]
pub(crate) fn utf8_string(bytes: Vec<u8>) -> (text: Option<String>)
    ensures
        text is Some <==> valid_utf8(bytes@),
        text matches Some(s) ==> s@ == decode_utf8(bytes@),
{
    String::from_utf8(bytes).ok()
}

/// `char::from_u32`: the character with that value, and none where the
/// value is a surrogate or past the last character there is.
#[verifier::external_body]
pub(crate) fn char_from(value: u32) -> (c: Option<char>)
    ensures
        c is Some <==> (value < 0xD800 || (0xE000 <= value <= 0x10FFFF)),
        c matches Some(ch) ==> ch == value as char && ch as u32 == value,
{
    char::from_u32(value)
}

} // verus!

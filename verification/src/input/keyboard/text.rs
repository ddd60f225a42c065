//! UTF-16 decoding and the classes of characters that text input tells apart.

use vstd::prelude::*;

verus! {

/// The backspace control character.
pub const BACKSPACE: char = '\x08';

/// U+FFFD, which stands in for input that is no valid text.
pub const REPLACEMENT_CHARACTER: char = '\u{FFFD}';

/// Whether `n` is a Unicode scalar value: a code point that is no surrogate.
pub open spec fn is_scalar_value(n: int) -> bool {
    0 <= n <= 0xD7FF || 0xE000 <= n <= 0x10FFFF
}

/// Whether `unit` is the first half of a surrogate pair (U+D800 to U+DBFF).
pub open spec fn spec_is_high_surrogate(unit: u16) -> bool {
    0xD800 <= unit <= 0xDBFF
}

/// Whether `unit` is the second half of a surrogate pair (U+DC00 to U+DFFF).
pub open spec fn spec_is_low_surrogate(unit: u16) -> bool {
    0xDC00 <= unit <= 0xDFFF
}

/// The code point that the surrogate pair `high`, `low` encodes: ten bits from
/// each half, above the Basic Multilingual Plane.
pub open spec fn pair_code_point(high: u16, low: u16) -> int {
    0x10000 + (high - 0xD800) * 0x400 + (low - 0xDC00)
}

/// The character that a code unit encodes by itself, if it is no surrogate.
pub open spec fn spec_decode_unit(unit: u16) -> Option<char> {
    if spec_is_high_surrogate(unit) || spec_is_low_surrogate(unit) {
        None
    } else {
        Some(unit as char)
    }
}

/// The character that `high` followed by `low` encodes, if the two form a
/// surrogate pair.
pub open spec fn spec_decode_pair(high: u16, low: u16) -> Option<char> {
    if spec_is_high_surrogate(high) && spec_is_low_surrogate(low) {
        Some(pair_code_point(high, low) as char)
    } else {
        None
    }
}

/// Whether `c` is a control code (general category Cc): U+0000 to U+001F and
/// U+007F to U+009F.
pub open spec fn spec_is_control(c: char) -> bool {
    c as u32 <= 0x1F || 0x7F <= c as u32 <= 0x9F
}

/// Whether `c` has the Unicode property White_Space.
pub open spec fn spec_is_whitespace(c: char) -> bool {
    let n = c as u32;
    ||| 0x09 <= n <= 0x0D
    ||| n == 0x20
    ||| n == 0x85
    ||| n == 0xA0
    ||| n == 0x1680
    ||| 0x2000 <= n <= 0x200A
    ||| n == 0x2028
    ||| n == 0x2029
    ||| n == 0x202F
    ||| n == 0x205F
    ||| n == 0x3000
}

/// Whether text input passes over `c`: a control code that is no white space.
pub open spec fn spec_is_ignored(c: char) -> bool {
    spec_is_control(c) && !spec_is_whitespace(c)
}

/// `char::from_u32` gives the character with code point `i`, and `None` when
/// `i` is a surrogate or lies beyond U+10FFFF.
pub assume_specification[ char::from_u32 ](i: u32) -> (c: Option<char>)
    ensures
        c == if is_scalar_value(i as int) {
            Some(i as char)
        } else {
            None
        },
;

/// Whether `unit` is the first half of a surrogate pair.
#[verifier::when_used_as_spec(spec_is_high_surrogate)]
pub fn is_high_surrogate(unit: u16) -> (high: bool)
    ensures
        high == spec_is_high_surrogate(unit),
{
    0xD800 <= unit && unit <= 0xDBFF
}

/// Whether `unit` is the second half of a surrogate pair.
#[verifier::when_used_as_spec(spec_is_low_surrogate)]
pub fn is_low_surrogate(unit: u16) -> (low: bool)
    ensures
        low == spec_is_low_surrogate(unit),
{
    0xDC00 <= unit && unit <= 0xDFFF
}

/// Decodes a code unit that stands for a character by itself.
///
/// Returns `None` for a surrogate, high or low.
#[verifier::when_used_as_spec(spec_decode_unit)]
pub fn decode_unit(unit: u16) -> (c: Option<char>)
    ensures
        c == spec_decode_unit(unit),
        c matches Some(ch) ==> ch as u32 == unit,
{
    if is_high_surrogate(unit) || is_low_surrogate(unit) {
        None
    } else {
        char::from_u32(unit as u32)
    }
}

/// Decodes a surrogate pair.
///
/// Returns `None` unless `high` is a high surrogate and `low` a low one.
#[verifier::when_used_as_spec(spec_decode_pair)]
pub fn decode_pair(high: u16, low: u16) -> (c: Option<char>)
    ensures
        c == spec_decode_pair(high, low),
        c matches Some(ch) ==> ch as u32 == pair_code_point(high, low) && ch as u32 > 0xFFFF,
{
    if is_high_surrogate(high) && is_low_surrogate(low) {
        let top: u32 = (high - 0xD800) as u32;
        let bottom: u32 = (low - 0xDC00) as u32;
        char::from_u32(0x10000 + top * 0x400 + bottom)
    } else {
        None
    }
}

/// Whether `c` is a control code.
#[verifier::when_used_as_spec(spec_is_control)]
pub fn is_control(c: char) -> (control: bool)
    ensures
        control == spec_is_control(c),
{
    let n: u32 = c as u32;
    n <= 0x1F || (0x7F <= n && n <= 0x9F)
}

/// Whether `c` is white space.
#[verifier::when_used_as_spec(spec_is_whitespace)]
pub fn is_whitespace(c: char) -> (space: bool)
    ensures
        space == spec_is_whitespace(c),
{
    let n: u32 = c as u32;
    (0x09 <= n && n <= 0x0D) || n == 0x20 || n == 0x85 || n == 0xA0 || n == 0x1680 || (0x2000 <= n
        && n <= 0x200A) || n == 0x2028 || n == 0x2029 || n == 0x202F || n == 0x205F || n == 0x3000
}

/// Whether text input passes over `c` without queuing it.
#[verifier::when_used_as_spec(spec_is_ignored)]
pub fn is_ignored(c: char) -> (ignored: bool)
    ensures
        ignored == spec_is_ignored(c),
{
    is_control(c) && !is_whitespace(c)
}

} // verus!

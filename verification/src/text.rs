//! Text: the characters of strings, numbers written in hexadecimal, and the
//! decoding of wide characters.

use vstd::prelude::*;
use vstd::std_specs::iter::IteratorSpec;

verus! {

broadcast use vstd::string::group_string_axioms;

/// `String::push` puts one character behind the text of the string.
pub assume_specification[ std::string::String::push ](text: &mut std::string::String, c: char)
    ensures
        final(text)@ == old(text)@.push(c),
;

/// Whether a number is a Unicode scalar value: a code point that is not a
/// surrogate.
pub open spec fn spec_is_scalar(value: u32) -> bool {
    value <= 0xD7FF || 0xE000 <= value <= 0x10_FFFF
}

/// `char::from_u32` gives the character with the given number where that
/// number is a Unicode scalar value, and nothing where it is not.
pub assume_specification[ char::from_u32 ](value: u32) -> (c: Option<char>)
    ensures
        spec_is_scalar(value) ==> c == Some(value as char) && c->0 as u32 == value,
        !spec_is_scalar(value) ==> c is None,
;

/// The characters of a string.
pub fn chars_of(text: &str) -> (chars: Vec<char>)
    ensures
        chars@ == text@,
{
    let mut chars: Vec<char> = Vec::new();
    for c in rest: text.chars()
        invariant
            rest.seq() == text@,
            chars@ == rest.history(),
    {
        chars.push(c);
    }
    assert(chars@ =~= text@);
    chars
}

/// The string that holds the given characters.
pub fn string_of(chars: &[char]) -> (text: String)
    ensures
        text@ == chars@,
{
    let mut text = String::new();
    let mut at: usize = 0;
    while at < chars.len()
        invariant
            at <= chars.len(),
            text@ == chars@.take(at as int),
        decreases chars.len() - at,
    {
        text.push(chars[at]);
        at = at + 1;
        assert(text@ =~= chars@.take(at as int));
    }
    assert(chars@.take(at as int) =~= chars@);
    text
}

/// The value of a hexadecimal digit, given by its character code: `0` to
/// `9`, `a` to `f` and `A` to `F`.
pub open spec fn spec_hex_digit(code: u32) -> Option<int> {
    if 0x30 <= code <= 0x39 {
        Some(code - 0x30)
    } else if 0x61 <= code <= 0x66 {
        Some(code - 0x61 + 10)
    } else if 0x41 <= code <= 0x46 {
        Some(code - 0x41 + 10)
    } else {
        None
    }
}

/// The value of a hexadecimal digit, given by its character code.
pub fn hex_digit(code: u32) -> (digit: Option<u32>)
    ensures
        match spec_hex_digit(code) {
            Some(value) => digit == Some(value as u32) && 0 <= value < 16,
            None => digit is None,
        },
{
    if 0x30 <= code && code <= 0x39 {
        Some(code - 0x30)
    } else if 0x61 <= code && code <= 0x66 {
        Some(code - 0x61 + 10)
    } else if 0x41 <= code && code <= 0x46 {
        Some(code - 0x41 + 10)
    } else {
        None
    }
}

/// The number `value` continued by the hexadecimal digits of `text` from
/// position `at` on; none where one of them is no hexadecimal digit.
pub open spec fn spec_hex_value_from(text: Seq<char>, at: int, value: int) -> Option<int>
    decreases text.len() - at,
{
    if at < 0 || at >= text.len() {
        Some(value)
    } else {
        match spec_hex_digit(text[at] as u32) {
            None => None,
            Some(digit) => spec_hex_value_from(text, at + 1, value * 16 + digit),
        }
    }
}

/// The number that `text` writes in hexadecimal: `text` is not empty and
/// holds hexadecimal digits only. Leading zeros count for nothing.
pub open spec fn spec_hex_value(text: Seq<char>) -> Option<int> {
    if text.len() == 0 {
        None
    } else {
        spec_hex_value_from(text, 0, 0)
    }
}

/// The number that `text` writes in hexadecimal, where it is at most `max`.
pub open spec fn spec_hex_bounded(text: Seq<char>, max: int) -> Option<int> {
    match spec_hex_value(text) {
        Some(value) => if value <= max {
            Some(value)
        } else {
            None
        },
        None => None,
    }
}

/// Further digits do not make a number smaller.
pub proof fn lemma_hex_value_grows(text: Seq<char>, at: int, value: int)
    requires
        value >= 0,
    ensures
        match spec_hex_value_from(text, at, value) {
            Some(total) => total >= value,
            None => true,
        },
    decreases text.len() - at,
{
    if 0 <= at < text.len() {
        match spec_hex_digit(text[at] as u32) {
            None => {},
            Some(digit) => {
                lemma_hex_value_grows(text, at + 1, value * 16 + digit);
            },
        }
    }
}

/// Reads the hexadecimal number that the characters from `start` up to
/// `end` write. There is none where there is no character, where one of
/// them is no hexadecimal digit, or where the number is larger than `max`.
pub fn parse_hex(chars: &[char], start: usize, end: usize, max: u32) -> (result: Option<u32>)
    requires
        start <= end <= chars.len(),
    ensures
        match spec_hex_bounded(chars@.subrange(start as int, end as int), max as int) {
            Some(value) => result is Some && result->0 == value && value <= max,
            None => result is None,
        },
{
    if start == end {
        return None;
    }
    let ghost text = chars@.subrange(start as int, end as int);
    let mut value: u32 = 0;
    let mut at: usize = start;
    while at < end
        invariant
            start <= at <= end <= chars.len(),
            value <= max,
            text == chars@.subrange(start as int, end as int),
            spec_hex_value(text) == spec_hex_value_from(text, at - start, value as int),
        decreases end - at,
    {
        assert(text[at - start] == chars@[at as int]);
        match hex_digit(chars[at] as u32) {
            None => {
                return None;
            },
            Some(digit) => {
                let next: u64 = value as u64 * 16 + digit as u64;
                if next > max as u64 {
                    proof {
                        lemma_hex_value_grows(text, at - start + 1, next as int);
                    }
                    return None;
                }
                value = next as u32;
            },
        }
        at = at + 1;
    }
    Some(value)
}

/// The characters `decoded` continued by the characters that the UTF-16
/// code units from position `at` on stand for. A code unit outside of the
/// surrogates stands for the character with its number; a high surrogate
/// and the low surrogate behind it stand for one character beyond the basic
/// plane. There is no result where a surrogate stands alone.
pub open spec fn spec_decode_utf16_from(units: Seq<u16>, at: int, decoded: Seq<char>) -> Option<
    Seq<char>,
>
    decreases units.len() - at,
{
    if at < 0 || at >= units.len() {
        Some(decoded)
    } else if units[at] < 0xD800 || units[at] > 0xDFFF {
        spec_decode_utf16_from(units, at + 1, decoded.push(units[at] as char))
    } else if units[at] <= 0xDBFF && at + 1 < units.len() && 0xDC00 <= units[at + 1] <= 0xDFFF {
        spec_decode_utf16_from(
            units,
            at + 2,
            decoded.push(
                (0x1_0000 + (units[at] - 0xD800) * 0x400 + (units[at + 1] - 0xDC00)) as char,
            ),
        )
    } else {
        None
    }
}

/// The text that UTF-16 code units stand for.
pub open spec fn spec_decode_utf16(units: Seq<u16>) -> Option<Seq<char>> {
    spec_decode_utf16_from(units, 0, Seq::empty())
}

/// Decodes UTF-16: see [`spec_decode_utf16_from`].
pub fn decode_utf16(units: &[u16]) -> (result: Option<String>)
    ensures
        match spec_decode_utf16(units@) {
            Some(text) => result is Some && result->0@ == text,
            None => result is None,
        },
{
    let mut text = String::new();
    let mut at: usize = 0;
    while at < units.len()
        invariant
            at <= units.len(),
            spec_decode_utf16(units@) == spec_decode_utf16_from(units@, at as int, text@),
        decreases units.len() - at,
    {
        let unit = units[at];
        if unit < 0xD800 || unit > 0xDFFF {
            match char::from_u32(unit as u32) {
                Some(c) => {
                    text.push(c);
                },
                None => {
                    return None;
                },
            }
            at = at + 1;
        } else if unit <= 0xDBFF && at + 1 < units.len() && 0xDC00 <= units[at + 1] && units[at + 1]
            <= 0xDFFF {
            let value: u32 = 0x1_0000 + (unit as u32 - 0xD800) * 0x400 + (units[at + 1] as u32
                - 0xDC00);
            match char::from_u32(value) {
                Some(c) => {
                    text.push(c);
                },
                None => {
                    return None;
                },
            }
            at = at + 2;
        } else {
            return None;
        }
    }
    Some(text)
}

/// The characters `decoded` continued by the characters with the numbers
/// from position `at` on; none where one of the numbers is no Unicode scalar
/// value.
pub open spec fn spec_decode_wide_from(wide: Seq<u32>, at: int, decoded: Seq<char>) -> Option<
    Seq<char>,
>
    decreases wide.len() - at,
{
    if at < 0 || at >= wide.len() {
        Some(decoded)
    } else if spec_is_scalar(wide[at]) {
        spec_decode_wide_from(wide, at + 1, decoded.push(wide[at] as char))
    } else {
        None
    }
}

/// The text that wide characters stand for, each of them the number of one
/// character.
pub open spec fn spec_decode_wide(wide: Seq<u32>) -> Option<Seq<char>> {
    spec_decode_wide_from(wide, 0, Seq::empty())
}

/// Decodes wide characters: see [`spec_decode_wide_from`].
pub fn decode_wide(wide: &[u32]) -> (result: Option<String>)
    ensures
        match spec_decode_wide(wide@) {
            Some(text) => result is Some && result->0@ == text,
            None => result is None,
        },
{
    let mut text = String::new();
    let mut at: usize = 0;
    while at < wide.len()
        invariant
            at <= wide.len(),
            spec_decode_wide(wide@) == spec_decode_wide_from(wide@, at as int, text@),
        decreases wide.len() - at,
    {
        match char::from_u32(wide[at]) {
            Some(c) => {
                text.push(c);
            },
            None => {
                return None;
            },
        }
        at = at + 1;
    }
    Some(text)
}

/// The number that a text writes in hexadecimal behind an optional sign: a
/// `+`, or a `-` where `min` is below zero. There is none where no digit
/// follows, where a character is no hexadecimal digit, or where the number
/// is not between `min` and `max`.
pub open spec fn spec_signed_hex(text: Seq<char>, min: int, max: int) -> Option<int> {
    let signed = text.len() > 0 && (text[0] == '+' || (text[0] == '-' && min < 0));
    let negative = signed && text[0] == '-';
    let digits = if signed {
        text.subrange(1, text.len() as int)
    } else {
        text
    };
    match spec_hex_value(digits) {
        None => None,
        Some(value) => {
            let number = if negative {
                -value
            } else {
                value
            };
            if min <= number <= max {
                Some(number)
            } else {
                None
            }
        },
    }
}

/// Reads a 16-bit number written in hexadecimal, with an optional `+`
/// before it.
pub fn parse_hex_u16(text: &str) -> (result: Option<u16>)
    ensures
        match spec_signed_hex(text@, 0, 0xffff) {
            Some(value) => result is Some && result->0 == value,
            None => result is None,
        },
{
    let chars = chars_of(text);
    let start: usize = if chars.len() > 0 && chars[0] == '+' {
        1
    } else {
        0
    };
    assert(chars@.subrange(0, chars@.len() as int) =~= chars@);
    match parse_hex(chars.as_slice(), start, chars.len(), 0xffff) {
        Some(value) => Some(value as u16),
        None => None,
    }
}

/// Reads a 32-bit number written in hexadecimal, with an optional `+` or
/// `-` before it.
pub fn parse_hex_i32(text: &str) -> (result: Option<i32>)
    ensures
        match spec_signed_hex(text@, -0x8000_0000, 0x7fff_ffff) {
            Some(value) => result is Some && result->0 == value,
            None => result is None,
        },
{
    let chars = chars_of(text);
    assert(chars@.subrange(0, chars@.len() as int) =~= chars@);
    if chars.len() > 0 && chars[0] == '-' {
        match parse_hex(chars.as_slice(), 1, chars.len(), 0x8000_0000) {
            Some(value) => Some((0 - value as i64) as i32),
            None => {
                proof {
                    let digits = chars@.subrange(1, chars@.len() as int);
                    if spec_hex_value(digits) is Some {
                        assert(spec_hex_value(digits)->0 > 0x8000_0000);
                    }
                }
                None
            },
        }
    } else {
        let start: usize = if chars.len() > 0 && chars[0] == '+' {
            1
        } else {
            0
        };
        match parse_hex(chars.as_slice(), start, chars.len(), 0x7fff_ffff) {
            Some(value) => Some(value as i32),
            None => {
                proof {
                    let digits = chars@.subrange(start as int, chars@.len() as int);
                    if spec_hex_value(digits) is Some {
                        lemma_hex_value_grows(digits, 0, 0);
                    }
                }
                None
            },
        }
    }
}

/// The decimal digits of a number, the highest first, behind the digits
/// `before`; the number 0 has the one digit `0`.
pub open spec fn spec_decimal_digits(value: nat) -> Seq<char>
    decreases value,
{
    if value < 10 {
        seq![(0x30 + value) as char]
    } else {
        spec_decimal_digits(value / 10).push((0x30 + value % 10) as char)
    }
}

fn digit_char(digit: u32) -> (c: char)
    requires
        digit < 10,
    ensures
        c == (0x30 + digit) as char,
{
    match char::from_u32(0x30 + digit) {
        Some(c) => c,
        None => '0',
    }
}

/// Writes a number in decimal.
pub fn decimal_text(value: u64) -> (text: String)
    ensures
        text@ == spec_decimal_digits(value as nat),
{
    let mut digits: Vec<char> = Vec::new();
    let mut rest: u64 = value;
    while rest >= 10
        invariant
            spec_decimal_digits(value as nat) == spec_decimal_digits(rest as nat) + digits@,
        decreases rest,
    {
        let ghost before = digits@;
        digits.insert(0, digit_char((rest % 10) as u32));
        assert(spec_decimal_digits(rest as nat) + before =~= spec_decimal_digits(
            (rest / 10) as nat,
        ) + digits@);
        rest = rest / 10;
    }
    let ghost before = digits@;
    digits.insert(0, digit_char(rest as u32));
    assert(spec_decimal_digits(rest as nat) + before =~= digits@);
    string_of(digits.as_slice())
}

/// The UTF-16 code units of a text: one unit for a character of the basic
/// plane, a high and a low surrogate for every other character.
pub open spec fn spec_encode_utf16(text: Seq<char>) -> Seq<u16>
    decreases text.len(),
{
    if text.len() == 0 {
        Seq::empty()
    } else {
        let code = text.last() as u32;
        let front = spec_encode_utf16(text.drop_last());
        if code < 0x1_0000 {
            front.push(code as u16)
        } else {
            front.push((0xD800 + (code - 0x1_0000) / 0x400) as u16).push(
                (0xDC00 + (code - 0x1_0000) % 0x400) as u16,
            )
        }
    }
}

/// Encodes a text as UTF-16.
pub fn encode_utf16(text: &str) -> (units: Vec<u16>)
    ensures
        units@ == spec_encode_utf16(text@),
{
    let chars = chars_of(text);
    let mut units: Vec<u16> = Vec::new();
    let mut at: usize = 0;
    while at < chars.len()
        invariant
            at <= chars.len(),
            units@ == spec_encode_utf16(chars@.take(at as int)),
        decreases chars.len() - at,
    {
        proof {
            vstd::utf8::char_is_scalar(chars@[at as int]);
        }
        let code = chars[at] as u32;
        assert(chars@.take(at + 1).drop_last() =~= chars@.take(at as int));
        if code < 0x1_0000 {
            units.push(code as u16);
        } else {
            units.push((0xD800 + (code - 0x1_0000) / 0x400) as u16);
            units.push((0xDC00 + (code - 0x1_0000) % 0x400) as u16);
        }
        at = at + 1;
    }
    assert(chars@.take(at as int) =~= chars@);
    units
}

/// The upper case of a code unit: the letters `a` to `z` become `A` to `Z`,
/// every other unit stays.
pub open spec fn spec_upper_unit(unit: u16) -> u16 {
    if 0x61 <= unit <= 0x7a {
        (unit - 0x20) as u16
    } else {
        unit
    }
}

pub fn upper_unit(unit: u16) -> (upper: u16)
    ensures
        upper == spec_upper_unit(unit),
{
    if 0x61 <= unit && unit <= 0x7a {
        unit - 0x20
    } else {
        unit
    }
}

/// The lower case of a character code: the letters `A` to `Z` become `a` to
/// `z`, every other code stays.
pub open spec fn spec_lower_code(code: u32) -> u32 {
    if 0x41 <= code <= 0x5a {
        (code + 0x20) as u32
    } else {
        code
    }
}

pub fn lower_code(code: u32) -> (lower: u32)
    ensures
        lower == spec_lower_code(code),
{
    if 0x41 <= code && code <= 0x5a {
        code + 0x20
    } else {
        code
    }
}

/// The character codes `decoded` continued by the codes of the characters
/// that the UTF-16 code units from position `at` on stand for, with the
/// replacement character U+FFFD for each surrogate that stands alone.
pub open spec fn spec_decode_utf16_lossy_from(units: Seq<u16>, at: int, decoded: Seq<u32>) -> Seq<
    u32,
>
    decreases units.len() - at,
{
    if at < 0 || at >= units.len() {
        decoded
    } else if units[at] < 0xD800 || units[at] > 0xDFFF {
        spec_decode_utf16_lossy_from(units, at + 1, decoded.push(units[at] as u32))
    } else if units[at] <= 0xDBFF && at + 1 < units.len() && 0xDC00 <= units[at + 1] <= 0xDFFF {
        spec_decode_utf16_lossy_from(
            units,
            at + 2,
            decoded.push(
                (0x1_0000 + (units[at] - 0xD800) * 0x400 + (units[at + 1] - 0xDC00)) as u32,
            ),
        )
    } else {
        spec_decode_utf16_lossy_from(units, at + 1, decoded.push(0xFFFDu32))
    }
}

/// The codes of the characters that UTF-16 code units stand for, with the
/// replacement character for each surrogate that stands alone.
pub open spec fn spec_decode_utf16_lossy(units: Seq<u16>) -> Seq<u32> {
    spec_decode_utf16_lossy_from(units, 0, Seq::empty())
}

/// Decodes UTF-16 to character codes: see
/// [`spec_decode_utf16_lossy_from`].
pub fn decode_utf16_lossy(units: &[u16]) -> (codes: Vec<u32>)
    ensures
        codes@ == spec_decode_utf16_lossy(units@),
{
    let mut codes: Vec<u32> = Vec::new();
    let mut at: usize = 0;
    while at < units.len()
        invariant
            at <= units.len(),
            spec_decode_utf16_lossy(units@) == spec_decode_utf16_lossy_from(
                units@,
                at as int,
                codes@,
            ),
        decreases units.len() - at,
    {
        let unit = units[at];
        if unit < 0xD800 || unit > 0xDFFF {
            codes.push(unit as u32);
            at = at + 1;
        } else if unit <= 0xDBFF && at + 1 < units.len() && 0xDC00 <= units[at + 1] && units[at + 1]
            <= 0xDFFF {
            codes.push(0x1_0000 + (unit as u32 - 0xD800) * 0x400 + (units[at + 1] as u32 - 0xDC00));
            at = at + 2;
        } else {
            codes.push(0xFFFD);
            at = at + 1;
        }
    }
    codes
}

/// The character of a hexadecimal digit, with the letters in upper case.
pub open spec fn spec_hex_char(digit: nat) -> char {
    if digit < 10 {
        (0x30 + digit) as char
    } else {
        (0x37 + digit) as char
    }
}

/// The hexadecimal digits of a number, the highest first, with the letters
/// in upper case; the number 0 has the one digit `0`.
pub open spec fn spec_hex_digits(value: nat) -> Seq<char>
    decreases value,
{
    if value < 16 {
        seq![spec_hex_char(value)]
    } else {
        spec_hex_digits(value / 16).push(spec_hex_char(value % 16))
    }
}

fn hex_char(digit: u32) -> (c: char)
    requires
        digit < 16,
    ensures
        c == spec_hex_char(digit as nat),
{
    let code: u32 = if digit < 10 {
        0x30 + digit
    } else {
        0x37 + digit
    };
    match char::from_u32(code) {
        Some(c) => c,
        None => '0',
    }
}

/// Writes a number in hexadecimal, with the letters in upper case.
pub fn hex_text(value: u64) -> (text: String)
    ensures
        text@ == spec_hex_digits(value as nat),
{
    let mut digits: Vec<char> = Vec::new();
    let mut rest: u64 = value;
    while rest >= 16
        invariant
            spec_hex_digits(value as nat) == spec_hex_digits(rest as nat) + digits@,
        decreases rest,
    {
        let ghost before = digits@;
        digits.insert(0, hex_char((rest % 16) as u32));
        assert(spec_hex_digits(rest as nat) + before =~= spec_hex_digits((rest / 16) as nat)
            + digits@);
        rest = rest / 16;
    }
    let ghost before = digits@;
    digits.insert(0, hex_char(rest as u32));
    assert(spec_hex_digits(rest as nat) + before =~= digits@);
    string_of(digits.as_slice())
}

} // verus!

//! Strings of UTF-16 code units, as the Windows API hands them out: single
//! strings and lists of strings, each string with a zero behind it.

use vstd::prelude::*;
use crate::device_info::{spec_u16str_to_wstring, u16str_to_wstring, WcharString};
use crate::text::{
    decode_utf16,
    decode_utf16_lossy,
    encode_utf16,
    hex_digit,
    lower_code,
    spec_decode_utf16,
    spec_decode_utf16_lossy,
    spec_encode_utf16,
    spec_hex_digit,
    spec_lower_code,
    spec_upper_unit,
    upper_unit,
};

verus! {

/// Whether a code unit is the zero that ends a string.
pub fn is_null(c: &u16) -> (null: bool)
    ensures
        null == (*c == 0),
{
    *c == 0
}

/// The code units with the letters `a` to `z` in upper case.
pub open spec fn spec_to_upper(units: Seq<u16>) -> Seq<u16> {
    Seq::new(units.len(), |at: int| spec_upper_unit(units[at]))
}

/// Puts the letters `a` to `z` of a string into upper case.
pub fn to_upper(u16str: &mut [u16])
    ensures
        final(u16str)@ == spec_to_upper(old(u16str)@),
{
    let mut at: usize = 0;
    while at < u16str.len()
        invariant
            at <= u16str@.len(),
            u16str@.len() == old(u16str)@.len(),
            forall|i: int| 0 <= i < at ==> u16str@[i] == spec_upper_unit(old(u16str)@[i]),
            forall|i: int| at <= i < u16str@.len() ==> u16str@[i] == old(u16str)@[i],
        decreases u16str@.len() - at,
    {
        let unit = u16str[at];
        u16str[at] = upper_unit(unit);
        at = at + 1;
    }
    assert(u16str@ =~= spec_to_upper(old(u16str)@));
}

/// Whether `pattern` stands in `units` at position `at`.
pub open spec fn spec_stands_at(units: Seq<u16>, pattern: Seq<u16>, at: int) -> bool {
    0 <= at && at + pattern.len() <= units.len() && units.subrange(at, at + pattern.len())
        == pattern
}

/// The first position from `from` on at which `pattern` stands in `units`.
pub open spec fn spec_find_from(units: Seq<u16>, pattern: Seq<u16>, from: int) -> Option<int>
    decreases units.len() - from,
{
    if from < 0 || from + pattern.len() > units.len() {
        None
    } else if spec_stands_at(units, pattern, from) {
        Some(from)
    } else if from >= units.len() {
        None
    } else {
        spec_find_from(units, pattern, from + 1)
    }
}

fn stands_at(units: &[u16], pattern: &[u16], at: usize) -> (stands: bool)
    requires
        at + pattern.len() <= units.len(),
    ensures
        stands == spec_stands_at(units@, pattern@, at as int),
{
    let mut offset: usize = 0;
    while offset < pattern.len()
        invariant
            offset <= pattern.len(),
            at + pattern.len() <= units.len(),
            forall|i: int| 0 <= i < offset ==> units@[at + i] == pattern@[i],
        decreases pattern@.len() - offset,
    {
        if units[at + offset] != pattern[offset] {
            assert(units@.subrange(at as int, at + pattern@.len())[offset as int]
                != pattern@[offset as int]);
            return false;
        }
        offset = offset + 1;
    }
    assert(units@.subrange(at as int, at + pattern@.len()) =~= pattern@);
    true
}

fn find_units(units: &[u16], pattern: &[u16]) -> (found: Option<usize>)
    ensures
        match spec_find_from(units@, pattern@, 0) {
            Some(at) => found is Some && found->0 == at && at + pattern.len() <= units.len(),
            None => found is None,
        },
{
    if pattern.len() > units.len() {
        return None;
    }
    let last: usize = units.len() - pattern.len();
    let mut at: usize = 0;
    loop
        invariant
            last == units@.len() - pattern@.len(),
            at <= last,
            spec_find_from(units@, pattern@, 0) == spec_find_from(units@, pattern@, at as int),
        decreases last - at,
    {
        if stands_at(units, pattern, at) {
            return Some(at);
        }
        if at == last {
            return None;
        }
        at = at + 1;
    }
}

/// The first position at which the text `pattern` stands in a string, as
/// UTF-16.
pub open spec fn spec_find_first_upper_case(units: Seq<u16>, pattern: Seq<char>) -> Option<int> {
    spec_find_from(units, spec_encode_utf16(pattern), 0)
}

/// Finds the first position at which the text `pattern` stands in a string.
/// The letters are compared as they are: the string is put into upper case
/// before, where that is meant.
pub fn find_first_upper_case(u16str: &[u16], pattern: &str) -> (found: Option<usize>)
    ensures
        match spec_find_first_upper_case(u16str@, pattern@) {
            Some(at) => found is Some && found->0 == at,
            None => found is None,
        },
{
    let units = encode_utf16(pattern);
    find_units(u16str, units.as_slice())
}

/// Whether the characters of a string are those of `pattern` but for the
/// case of the letters `a` to `z`, as far as both reach: a string that is
/// shorter than the pattern starts with it where it agrees with the start
/// of the pattern.
pub open spec fn spec_starts_with_ignore_case(units: Seq<u16>, pattern: Seq<char>) -> bool {
    let codes = spec_decode_utf16_lossy(units);
    forall|at: int|
        0 <= at < codes.len() && at < pattern.len() ==> spec_lower_code(#[trigger] codes[at])
            == spec_lower_code(pattern[at] as u32)
}

/// Decides [`spec_starts_with_ignore_case`].
pub fn starts_with_ignore_case(utf16str: &[u16], pattern: &str) -> (starts: bool)
    ensures
        starts == spec_starts_with_ignore_case(utf16str@, pattern@),
{
    let codes = decode_utf16_lossy(utf16str);
    let wanted = crate::text::chars_of(pattern);
    let mut at: usize = 0;
    while at < codes.len() && at < wanted.len()
        invariant
            codes@ == spec_decode_utf16_lossy(utf16str@),
            wanted@ == pattern@,
            forall|i: int|
                0 <= i < at ==> spec_lower_code(#[trigger] codes@[i]) == spec_lower_code(
                    wanted@[i] as u32,
                ),
        decreases codes@.len() - at,
    {
        if lower_code(codes[at]) != lower_code(wanted[at] as u32) {
            return false;
        }
        at = at + 1;
    }
    true
}

/// The number `value` continued by the hexadecimal digits that stand in a
/// string from position `at` on, up to the first code unit that is none.
/// The number is kept in 32 bits: digits that leave them at the top are
/// lost.
pub open spec fn spec_hex_run_from(units: Seq<u16>, at: int, value: Option<u32>) -> Option<u32>
    decreases units.len() - at,
{
    if at < 0 || at >= units.len() {
        value
    } else {
        match spec_hex_digit(units[at] as u32) {
            None => value,
            Some(digit) => spec_hex_run_from(
                units,
                at + 1,
                Some(
                    match value {
                        None => digit as u32,
                        Some(before) => ((before * 16 + digit) % 0x1_0000_0000) as u32,
                    },
                ),
            ),
        }
    }
}

/// The number that stands behind the first `token` in a string, written in
/// hexadecimal; none where the token is not in the string or no digit
/// stands behind it.
pub open spec fn spec_extract_int_token_value(units: Seq<u16>, token: Seq<char>) -> Option<u32> {
    match spec_find_first_upper_case(units, token) {
        None => None,
        Some(at) => spec_hex_run_from(units, at + spec_encode_utf16(token).len(), None),
    }
}

/// Reads the number behind a token such as `REV_` or `MI_`: see
/// [`spec_extract_int_token_value`].
pub fn extract_int_token_value(u16str: &[u16], token: &str) -> (value: Option<u32>)
    ensures
        value == spec_extract_int_token_value(u16str@, token@),
{
    let units = encode_utf16(token);
    let start = match find_units(u16str, units.as_slice()) {
        None => { return None; },
        Some(at) => at + units.len(),
    };
    let mut value: Option<u32> = None;
    let mut at: usize = start;
    while at < u16str.len()
        invariant
            spec_extract_int_token_value(u16str@, token@) == spec_hex_run_from(
                u16str@,
                at as int,
                value,
            ),
        decreases u16str@.len() - at,
    {
        match hex_digit(u16str[at] as u32) {
            None => {
                return value;
            },
            Some(digit) => {
                value = Some(
                    match value {
                        None => digit,
                        Some(before) => ((before as u64 * 16 + digit as u64) % 0x1_0000_0000) as u32,
                    },
                );
            },
        }
        at = at + 1;
    }
    value
}

/// A string of UTF-16 code units with the zero that ends it.
#[derive(Debug)]
pub struct U16Str(pub Vec<u16>);

impl View for U16Str {
    type V = Seq<u16>;

    open spec fn view(&self) -> Seq<u16> {
        self.0@
    }
}

/// Whether code units end with a zero.
pub open spec fn spec_is_terminated(units: Seq<u16>) -> bool {
    units.len() > 0 && units.last() == 0
}

/// Decides [`spec_is_terminated`].
pub fn is_terminated(units: &[u16]) -> (terminated: bool)
    ensures
        terminated == spec_is_terminated(units@),
{
    units.len() > 0 && units[units.len() - 1] == 0
}

/// The strings of a list, each with its zero, behind the strings `found`:
/// `start` is where the string begins that holds position `at`. Code units
/// behind the last zero belong to no string.
pub open spec fn spec_slice_list_from(
    units: Seq<u16>,
    start: int,
    at: int,
    found: Seq<Seq<u16>>,
) -> Seq<Seq<u16>>
    decreases units.len() - at,
{
    if at < 0 || at >= units.len() {
        found
    } else if units[at] == 0 {
        spec_slice_list_from(units, at + 1, at + 1, found.push(units.subrange(start, at + 1)))
    } else {
        spec_slice_list_from(units, start, at + 1, found)
    }
}

/// The strings of a list of strings.
pub open spec fn spec_slice_list(units: Seq<u16>) -> Seq<Seq<u16>> {
    spec_slice_list_from(units, 0, 0, Seq::empty())
}

/// The views of a vector of strings.
pub open spec fn spec_views(strings: Seq<U16Str>) -> Seq<Seq<u16>> {
    Seq::new(strings.len(), |at: int| strings[at]@)
}

impl U16Str {
    /// Whether the string ends with its zero.
    pub open spec fn wf(&self) -> bool {
        spec_is_terminated(self@)
    }

    /// Takes a copy of code units that end with a zero.
    pub fn from_slice(slice: &[u16]) -> (string: U16Str)
        requires
            spec_is_terminated(slice@),
        ensures
            string@ == slice@,
            string.wf(),
    {
        U16Str(vstd::slice::slice_to_vec(slice))
    }

    /// Takes a copy of code units, where they end with a zero.
    pub fn try_from_slice(slice: &[u16]) -> (string: Option<U16Str>)
        ensures
            spec_is_terminated(slice@) ==> string is Some && string->0@ == slice@ && string->0.wf(),
            !spec_is_terminated(slice@) ==> string is None,
    {
        if is_terminated(slice) {
            Some(U16Str::from_slice(slice))
        } else {
            None
        }
    }

    /// The strings of a list of strings: see [`spec_slice_list_from`].
    pub fn from_slice_list(slice: &[u16]) -> (strings: Vec<U16Str>)
        ensures
            spec_views(strings@) == spec_slice_list(slice@),
            forall|at: int| 0 <= at < strings@.len() ==> (#[trigger] strings@[at]).wf(),
    {
        let mut strings: Vec<U16Str> = Vec::new();
        let mut start: usize = 0;
        let mut at: usize = 0;
        assert(spec_views(strings@) =~= Seq::<Seq<u16>>::empty());
        while at < slice.len()
            invariant
                start <= at <= slice@.len(),
                spec_slice_list(slice@) == spec_slice_list_from(
                    slice@,
                    start as int,
                    at as int,
                    spec_views(strings@),
                ),
                forall|i: int| 0 <= i < strings@.len() ==> (#[trigger] strings@[i]).wf(),
            decreases slice@.len() - at,
        {
            if slice[at] == 0 {
                let piece = vstd::slice::slice_subrange(slice, start, at + 1);
                let ghost before = spec_views(strings@);
                strings.push(U16Str(vstd::slice::slice_to_vec(piece)));
                assert(spec_views(strings@) =~= before.push(
                    slice@.subrange(start as int, at + 1),
                ));
                start = at + 1;
            }
            at = at + 1;
        }
        strings
    }

    /// The code units of the string, without the zero.
    pub open spec fn spec_as_slice(&self) -> Seq<u16> {
        self@.drop_last()
    }

    /// The code units of the string, without the zero.
    pub fn as_slice(&self) -> (units: &[u16])
        requires
            self.wf(),
        ensures
            units@ == self.spec_as_slice(),
    {
        vstd::slice::slice_subrange(self.0.as_slice(), 0, self.0.len() - 1)
    }

    /// Puts the letters `a` to `z` of the string into upper case.
    pub fn make_uppercase_ascii(&mut self)
        requires
            old(self).wf(),
        ensures
            final(self)@ == spec_to_upper(old(self)@),
            final(self).wf(),
    {
        to_upper(self.0.as_mut_slice());
    }

    /// Whether the string starts with `pattern` but for the case of
    /// letters: see [`spec_starts_with_ignore_case`].
    pub fn starts_with_ignore_case(&self, pattern: &str) -> (starts: bool)
        requires
            self.wf(),
        ensures
            starts == spec_starts_with_ignore_case(self.spec_as_slice(), pattern@),
    {
        starts_with_ignore_case(self.as_slice(), pattern)
    }

    /// The first position at which `pattern` stands in the string.
    pub fn find_index(&self, pattern: &str) -> (found: Option<usize>)
        requires
            self.wf(),
        ensures
            match spec_find_first_upper_case(self.spec_as_slice(), pattern@) {
                Some(at) => found is Some && found->0 == at,
                None => found is None,
            },
    {
        find_first_upper_case(self.as_slice(), pattern)
    }

    /// The text of the string, where it is valid UTF-16.
    pub fn to_text(&self) -> (text: Option<String>)
        requires
            self.wf(),
        ensures
            match spec_decode_utf16(self.spec_as_slice()) {
                Some(decoded) => text is Some && text->0@ == decoded,
                None => text is None,
            },
    {
        decode_utf16(self.as_slice())
    }

    /// The string as a string of a device record: its text, or its code
    /// units where they are no text.
    pub fn to_wchar_string(&self) -> (string: WcharString)
        requires
            self.wf(),
        ensures
            string@ == spec_u16str_to_wstring(self.spec_as_slice()),
    {
        u16str_to_wstring(self.as_slice())
    }
}

/// A string of UTF-16 code units that owns its buffer, filled by the
/// operating system.
#[derive(Debug)]
pub struct U16String(pub Vec<u16>);

impl View for U16String {
    type V = Seq<u16>;

    open spec fn view(&self) -> Seq<u16> {
        self.0@
    }
}

impl U16String {
    /// A buffer of zeros for a property of `bytes` bytes; none where that
    /// is no whole number of code units.
    pub fn create_sized(bytes: usize) -> (string: Option<U16String>)
        ensures
            bytes % 2 == 0 ==> string is Some && string->0@ == Seq::new(
                (bytes / 2) as nat,
                |at: int| 0u16,
            ),
            bytes % 2 != 0 ==> string is None,
    {
        if bytes % 2 != 0 {
            return None;
        }
        let mut units: Vec<u16> = Vec::new();
        let mut at: usize = 0;
        while at < bytes / 2
            invariant
                at <= bytes / 2,
                units@ =~= Seq::new(at as nat, |i: int| 0u16),
            decreases bytes / 2 - at,
        {
            units.push(0);
            at = at + 1;
        }
        Some(U16String(units))
    }

    /// The text of the path of a device as a string of code units with its
    /// zero.
    pub fn from_text(text: &str) -> (string: U16String)
        ensures
            string@ == spec_encode_utf16(text@).push(0u16),
    {
        let mut units = encode_utf16(text);
        units.push(0);
        U16String(units)
    }

    /// The string, where the buffer ends with a zero.
    pub fn as_u16str(&self) -> (string: Option<U16Str>)
        ensures
            spec_is_terminated(self@) ==> string is Some && string->0@ == self@ && string->0.wf(),
            !spec_is_terminated(self@) ==> string is None,
    {
        U16Str::try_from_slice(self.0.as_slice())
    }
}

/// A list of strings of UTF-16 code units in one buffer, each with its zero.
#[derive(Debug)]
pub struct U16StringList(pub Vec<u16>);

impl View for U16StringList {
    type V = Seq<u16>;

    open spec fn view(&self) -> Seq<u16> {
        self.0@
    }
}

impl U16StringList {
    /// The strings of the list.
    pub fn iter(&self) -> (strings: Vec<U16Str>)
        ensures
            spec_views(strings@) == spec_slice_list(self@),
            forall|at: int| 0 <= at < strings@.len() ==> (#[trigger] strings@[at]).wf(),
    {
        U16Str::from_slice_list(self.0.as_slice())
    }
}

} // verus!

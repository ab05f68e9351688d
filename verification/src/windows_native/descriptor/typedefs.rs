//! The records of the preparsed data that the Windows HID stack hands out in
//! place of a report descriptor, and how they are read from its bytes. The
//! layout is fixed by the HID stack; all numbers are little endian.

use vstd::prelude::*;
use crate::windows_native::descriptor::types::BitRange;

verus! {

/// A usage or usage page of the HID usage tables.
pub type Usage = u16;

/// Size in bytes of the header of the preparsed data.
pub const HEADER_SIZE: usize = 44;

/// Size in bytes of one capability record.
pub const CAPS_SIZE: usize = 104;

/// Size in bytes of one link collection node.
pub const LINK_COLLECTION_NODE_SIZE: usize = 16;

/// The 16-bit number stored at `at`, low byte first.
pub open spec fn spec_u16_at(bytes: Seq<u8>, at: int) -> u16 {
    (bytes[at] as int + 256 * (bytes[at + 1] as int)) as u16
}

/// The 32-bit number stored at `at`, low byte first.
pub open spec fn spec_u32_at(bytes: Seq<u8>, at: int) -> u32 {
    (bytes[at] as int + 256 * (bytes[at + 1] as int) + 65536 * (bytes[at + 2] as int) + 16777216
        * (bytes[at + 3] as int)) as u32
}

/// The 32-bit number at `at` read as a two's complement value.
pub open spec fn spec_i32_at(bytes: Seq<u8>, at: int) -> i32 {
    let unsigned = spec_u32_at(bytes, at) as int;
    if unsigned >= 0x8000_0000 {
        (unsigned - 0x1_0000_0000) as i32
    } else {
        unsigned as i32
    }
}

pub fn u16_at(bytes: &[u8], at: usize) -> (value: u16)
    requires
        at + 2 <= bytes.len(),
    ensures
        value == spec_u16_at(bytes@, at as int),
{
    bytes[at] as u16 + 256 * (bytes[at + 1] as u16)
}

pub fn u32_at(bytes: &[u8], at: usize) -> (value: u32)
    requires
        at + 4 <= bytes.len(),
    ensures
        value == spec_u32_at(bytes@, at as int),
{
    bytes[at] as u32 + 256 * (bytes[at + 1] as u32) + 65536 * (bytes[at + 2] as u32) + 16777216 * (
    bytes[at + 3] as u32)
}

pub fn i32_at(bytes: &[u8], at: usize) -> (value: i32)
    requires
        at + 4 <= bytes.len(),
    ensures
        value == spec_i32_at(bytes@, at as int),
{
    let unsigned: i64 = u32_at(bytes, at) as i64;
    if unsigned >= 0x8000_0000 {
        (unsigned - 0x1_0000_0000) as i32
    } else {
        unsigned as i32
    }
}

/// One node of the collection tree. The nodes refer to each other by their
/// indices in the node array; index 0 is the root and stands for "none" in
/// `next_sibling` and `first_child`.
#[derive(Copy, Clone, Debug, PartialEq, Eq, Structural)]
pub struct LinkCollectionNode {
    pub link_usage: Usage,
    pub link_usage_page: Usage,
    pub parent: u16,
    pub number_of_children: u16,
    pub next_sibling: u16,
    pub first_child: u16,
    /// The collection type in the low byte, the alias flag in bit 8.
    pub bits: u32,
}

impl LinkCollectionNode {
    /// Whether the collection is one of a set of aliased collections.
    pub open spec fn spec_is_alias(&self) -> bool {
        (self.bits / 256) % 2 == 1
    }

    /// The type of the collection: application, physical, logical, ...
    pub open spec fn spec_collection_type(&self) -> u8 {
        (self.bits % 256) as u8
    }

    pub fn is_alias(&self) -> (alias: bool)
        ensures
            alias == self.spec_is_alias(),
    {
        (self.bits / 256) % 2 == 1
    }

    pub fn collection_type(&self) -> (kind: u8)
        ensures
            kind == self.spec_collection_type(),
    {
        (self.bits % 256) as u8
    }

    /// The node stored in the 16 bytes from `at`.
    pub open spec fn spec_from_bytes(bytes: Seq<u8>, at: int) -> LinkCollectionNode {
        LinkCollectionNode {
            link_usage: spec_u16_at(bytes, at),
            link_usage_page: spec_u16_at(bytes, at + 2),
            parent: spec_u16_at(bytes, at + 4),
            number_of_children: spec_u16_at(bytes, at + 6),
            next_sibling: spec_u16_at(bytes, at + 8),
            first_child: spec_u16_at(bytes, at + 10),
            bits: spec_u32_at(bytes, at + 12),
        }
    }

    pub fn from_bytes(bytes: &[u8], at: usize) -> (node: LinkCollectionNode)
        requires
            at + LINK_COLLECTION_NODE_SIZE <= bytes.len(),
        ensures
            node == Self::spec_from_bytes(bytes@, at as int),
    {
        LinkCollectionNode {
            link_usage: u16_at(bytes, at),
            link_usage_page: u16_at(bytes, at + 2),
            parent: u16_at(bytes, at + 4),
            number_of_children: u16_at(bytes, at + 6),
            next_sibling: u16_at(bytes, at + 8),
            first_child: u16_at(bytes, at + 10),
            bits: u32_at(bytes, at + 12),
        }
    }
}

/// Where the capabilities of one report type stand in the capability array,
/// and how long the reports of that type are.
#[derive(Copy, Clone, Debug, PartialEq, Eq, Structural)]
pub struct CapsInfo {
    pub first_cap: u16,
    pub number_of_caps: u16,
    pub last_cap: u16,
    pub report_byte_length: u16,
}

impl CapsInfo {
    /// The record stored in the 8 bytes from `at`.
    pub open spec fn spec_from_bytes(bytes: Seq<u8>, at: int) -> CapsInfo {
        CapsInfo {
            first_cap: spec_u16_at(bytes, at),
            number_of_caps: spec_u16_at(bytes, at + 2),
            last_cap: spec_u16_at(bytes, at + 4),
            report_byte_length: spec_u16_at(bytes, at + 6),
        }
    }

    pub fn from_bytes(bytes: &[u8], at: usize) -> (info: CapsInfo)
        requires
            at + 8 <= bytes.len(),
        ensures
            info == Self::spec_from_bytes(bytes@, at as int),
    {
        CapsInfo {
            first_cap: u16_at(bytes, at),
            number_of_caps: u16_at(bytes, at + 2),
            last_cap: u16_at(bytes, at + 4),
            report_byte_length: u16_at(bytes, at + 6),
        }
    }
}

/// A global item that the HID stack did not understand.
#[derive(Copy, Clone, Debug)]
pub struct UnknownToken {
    pub token: u8,
    pub reserved: (u8, u8, u8),
    pub bit_field: u32,
}

impl UnknownToken {
    /// The record stored in the 8 bytes from `at`.
    pub open spec fn spec_from_bytes(bytes: Seq<u8>, at: int) -> UnknownToken {
        UnknownToken {
            token: bytes[at],
            reserved: (bytes[at + 1], bytes[at + 2], bytes[at + 3]),
            bit_field: spec_u32_at(bytes, at + 4),
        }
    }

    pub fn from_bytes(bytes: &[u8], at: usize) -> (token: UnknownToken)
        requires
            at + 8 <= bytes.len(),
        ensures
            token == Self::spec_from_bytes(bytes@, at as int),
    {
        UnknownToken {
            token: bytes[at],
            reserved: (bytes[at + 1], bytes[at + 2], bytes[at + 3]),
            bit_field: u32_at(bytes, at + 4),
        }
    }
}

/// The logical bounds of a button capability.
#[derive(Copy, Clone, Debug, PartialEq, Eq, Structural)]
pub struct Button {
    pub logical_min: i32,
    pub logical_max: i32,
}

/// The bounds of a value capability.
#[derive(Copy, Clone, Debug)]
pub struct NotButton {
    pub has_nul: u8,
    pub reserved: (u8, u8, u8),
    pub logical_min: i32,
    pub logical_max: i32,
    pub physical_min: i32,
    pub physical_max: i32,
}

/// The usages, strings, designators and data indices of a capability that
/// covers a range of usages.
#[derive(Copy, Clone, Debug, PartialEq, Eq, Structural)]
pub struct Range {
    pub usage_min: Usage,
    pub usage_max: Usage,
    pub string_min: u16,
    pub string_max: u16,
    pub designator_min: u16,
    pub designator_max: u16,
    pub data_index_min: u16,
    pub data_index_max: u16,
}

/// The usage, string, designator and data index of a capability with a
/// single usage.
#[derive(Copy, Clone, Debug, PartialEq, Eq, Structural)]
pub struct NotRange {
    pub usage: Usage,
    pub reserved1: Usage,
    pub string_index: u16,
    pub reserved2: u16,
    pub designator_index: u16,
    pub reserved3: u16,
    pub data_index: u16,
    pub reserved4: u16,
}

/// One button or value field of a report, or a range of them.
///
/// The record holds two areas that are read in two ways each: the usage area
/// as a [`Range`] or a [`NotRange`], the bounds area as a [`Button`] or a
/// [`NotButton`]. Which reading is meant is told by `flags`; both readings
/// are defined for every record, since they are two views of the same bytes.
#[derive(Copy, Clone, Debug)]
pub struct Caps {
    pub usage_page: Usage,
    pub report_id: u8,
    pub bit_position: u8,
    pub report_size: u16,
    pub report_count: u16,
    pub byte_position: u16,
    pub bit_count: u16,
    pub bit_field: u32,
    pub next_byte_position: u16,
    pub link_collection: u16,
    pub link_usage_page: Usage,
    pub link_usage: Usage,
    /// Bit 2: button; bit 4: range; bit 5: alias; bit 6: string range;
    /// bit 7: designator range.
    pub flags: u8,
    pub reserved: (u8, u8, u8),
    pub unknown_tokens: (UnknownToken, UnknownToken, UnknownToken, UnknownToken),
    /// The usage area, as its 16-bit words.
    pub usage_words: Range,
    /// The bounds area, as its 32-bit words; the first of them is what a
    /// button reads as its logical minimum.
    pub bounds_words: (i32, i32, i32, i32, i32),
    pub units: u32,
    pub units_exp: u32,
}

/// The byte of a two's complement 32-bit value at `index`, 0 for the lowest.
pub open spec fn spec_byte_of(word: i32, index: int) -> u8 {
    let unsigned = if word < 0 {
        word + 0x1_0000_0000
    } else {
        word as int
    };
    if index == 0 {
        (unsigned % 256) as u8
    } else if index == 1 {
        (unsigned / 256 % 256) as u8
    } else if index == 2 {
        (unsigned / 65536 % 256) as u8
    } else {
        (unsigned / 16777216 % 256) as u8
    }
}

/// The byte of a two's complement 32-bit value at `index`, 0 for the lowest.
pub fn byte_of(word: i32, index: usize) -> (byte: u8)
    requires
        index < 4,
    ensures
        byte == spec_byte_of(word, index as int),
{
    let unsigned: i64 = if word < 0 {
        word as i64 + 0x1_0000_0000
    } else {
        word as i64
    };
    if index == 0 {
        (unsigned % 256) as u8
    } else if index == 1 {
        (unsigned / 256 % 256) as u8
    } else if index == 2 {
        (unsigned / 65536 % 256) as u8
    } else {
        (unsigned / 16777216 % 256) as u8
    }
}

impl Caps {
    pub open spec fn spec_is_button_cap(&self) -> bool {
        (self.flags / 4) % 2 == 1
    }

    pub open spec fn spec_is_range(&self) -> bool {
        (self.flags / 16) % 2 == 1
    }

    pub open spec fn spec_is_alias(&self) -> bool {
        (self.flags / 32) % 2 == 1
    }

    pub open spec fn spec_is_string_range(&self) -> bool {
        (self.flags / 64) % 2 == 1
    }

    pub open spec fn spec_is_designator_range(&self) -> bool {
        (self.flags / 128) % 2 == 1
    }

    /// Whether the capability is a button (one bit per usage) and not a
    /// value.
    pub fn is_button_cap(&self) -> (set: bool)
        ensures
            set == self.spec_is_button_cap(),
    {
        (self.flags / 4) % 2 == 1
    }

    /// Whether the capability covers a range of usages.
    pub fn is_range(&self) -> (set: bool)
        ensures
            set == self.spec_is_range(),
    {
        (self.flags / 16) % 2 == 1
    }

    /// Whether the capability is an alias of the one that follows it.
    pub fn is_alias(&self) -> (set: bool)
        ensures
            set == self.spec_is_alias(),
    {
        (self.flags / 32) % 2 == 1
    }

    /// Whether the capability covers a range of string indices.
    pub fn is_string_range(&self) -> (set: bool)
        ensures
            set == self.spec_is_string_range(),
    {
        (self.flags / 64) % 2 == 1
    }

    /// Whether the capability covers a range of designator indices.
    pub fn is_designator_range(&self) -> (set: bool)
        ensures
            set == self.spec_is_designator_range(),
    {
        (self.flags / 128) % 2 == 1
    }

    /// The usage area read as a range.
    pub open spec fn spec_range(&self) -> Range {
        self.usage_words
    }

    /// The usage area read as a single usage.
    pub open spec fn spec_not_range(&self) -> NotRange {
        NotRange {
            usage: self.usage_words.usage_min,
            reserved1: self.usage_words.usage_max,
            string_index: self.usage_words.string_min,
            reserved2: self.usage_words.string_max,
            designator_index: self.usage_words.designator_min,
            reserved3: self.usage_words.designator_max,
            data_index: self.usage_words.data_index_min,
            reserved4: self.usage_words.data_index_max,
        }
    }

    /// The bounds area read as the bounds of a button.
    pub open spec fn spec_button(&self) -> Button {
        Button { logical_min: self.bounds_words.0, logical_max: self.bounds_words.1 }
    }

    /// The bounds area read as the bounds of a value.
    pub open spec fn spec_not_button(&self) -> NotButton {
        NotButton {
            has_nul: spec_byte_of(self.bounds_words.0, 0),
            reserved: (
                spec_byte_of(self.bounds_words.0, 1),
                spec_byte_of(self.bounds_words.0, 2),
                spec_byte_of(self.bounds_words.0, 3),
            ),
            logical_min: self.bounds_words.1,
            logical_max: self.bounds_words.2,
            physical_min: self.bounds_words.3,
            physical_max: self.bounds_words.4,
        }
    }

    pub fn range(&self) -> (range: Range)
        ensures
            range == self.spec_range(),
    {
        self.usage_words
    }

    pub fn not_range(&self) -> (single: NotRange)
        ensures
            single == self.spec_not_range(),
    {
        NotRange {
            usage: self.usage_words.usage_min,
            reserved1: self.usage_words.usage_max,
            string_index: self.usage_words.string_min,
            reserved2: self.usage_words.string_max,
            designator_index: self.usage_words.designator_min,
            reserved3: self.usage_words.designator_max,
            data_index: self.usage_words.data_index_min,
            reserved4: self.usage_words.data_index_max,
        }
    }

    pub fn button(&self) -> (bounds: Button)
        ensures
            bounds == self.spec_button(),
    {
        Button { logical_min: self.bounds_words.0, logical_max: self.bounds_words.1 }
    }

    pub fn not_button(&self) -> (bounds: NotButton)
        ensures
            bounds == self.spec_not_button(),
    {
        NotButton {
            has_nul: byte_of(self.bounds_words.0, 0),
            reserved: (
                byte_of(self.bounds_words.0, 1),
                byte_of(self.bounds_words.0, 2),
                byte_of(self.bounds_words.0, 3),
            ),
            logical_min: self.bounds_words.1,
            logical_max: self.bounds_words.2,
            physical_min: self.bounds_words.3,
            physical_max: self.bounds_words.4,
        }
    }

    /// Position of the first bit of the field in its report. Byte positions
    /// count from 1: byte 0 of the report is the report id.
    pub open spec fn spec_first_bit(&self) -> int {
        (self.byte_position - 1) * 8 + self.bit_position
    }

    /// Position of the last bit of the field in its report.
    pub open spec fn spec_last_bit(&self) -> int {
        self.spec_first_bit() + self.report_size * self.report_count - 1
    }

    /// Whether the field lies at 16-bit bit positions: its byte position is
    /// at least 1, its size is not zero, and its last bit is below 65536.
    pub open spec fn has_bit_range(&self) -> bool {
        &&& self.byte_position >= 1
        &&& self.report_size * self.report_count >= 1
        &&& self.spec_last_bit() <= u16::MAX
    }

    /// The bits that the field occupies in its report.
    pub open spec fn spec_bit_range(&self) -> BitRange {
        BitRange { first_bit: self.spec_first_bit() as u16, last_bit: self.spec_last_bit() as u16 }
    }

    /// Decides [`Self::has_bit_range`].
    pub fn check_bit_range(&self) -> (ok: bool)
        ensures
            ok == self.has_bit_range(),
    {
        if self.byte_position < 1 {
            return false;
        }
        let size: u64 = self.report_size as u64;
        let count: u64 = self.report_count as u64;
        assert(size * count <= 0xffff * 0xffff) by (nonlinear_arith)
            requires
                0 <= size <= 0xffff,
                0 <= count <= 0xffff,
        ;
        let bits: u64 = size * count;
        let first: u64 = (self.byte_position as u64 - 1) * 8 + self.bit_position as u64;
        bits >= 1 && first + bits - 1 <= 0xffff
    }

    /// The bits that the field occupies in its report: from
    /// `(byte_position - 1) * 8 + bit_position`, over
    /// `report_size * report_count` bits.
    pub fn get_bit_range(&self) -> (range: BitRange)
        requires
            self.has_bit_range(),
        ensures
            range == self.spec_bit_range(),
            range.first_bit == self.spec_first_bit(),
            range.last_bit == self.spec_last_bit(),
            range.first_bit <= range.last_bit,
    {
        let size: u64 = self.report_size as u64;
        let count: u64 = self.report_count as u64;
        assert(size * count <= 0xffff * 0xffff) by (nonlinear_arith)
            requires
                0 <= size <= 0xffff,
                0 <= count <= 0xffff,
        ;
        let bits: u64 = size * count;
        let first: u64 = (self.byte_position as u64 - 1) * 8 + self.bit_position as u64;
        BitRange { first_bit: first as u16, last_bit: (first + bits - 1) as u16 }
    }

    /// A record of zero bytes.
    pub open spec fn spec_zeroed() -> Caps {
        let token = UnknownToken { token: 0, reserved: (0, 0, 0), bit_field: 0 };
        Caps {
            usage_page: 0,
            report_id: 0,
            bit_position: 0,
            report_size: 0,
            report_count: 0,
            byte_position: 0,
            bit_count: 0,
            bit_field: 0,
            next_byte_position: 0,
            link_collection: 0,
            link_usage_page: 0,
            link_usage: 0,
            flags: 0,
            reserved: (0, 0, 0),
            unknown_tokens: (token, token, token, token),
            usage_words: Range {
                usage_min: 0,
                usage_max: 0,
                string_min: 0,
                string_max: 0,
                designator_min: 0,
                designator_max: 0,
                data_index_min: 0,
                data_index_max: 0,
            },
            bounds_words: (0, 0, 0, 0, 0),
            units: 0,
            units_exp: 0,
        }
    }

    /// A record of zero bytes.
    pub fn zeroed() -> (caps: Caps)
        ensures
            caps == Self::spec_zeroed(),
    {
        let token = UnknownToken { token: 0, reserved: (0, 0, 0), bit_field: 0 };
        Caps {
            usage_page: 0,
            report_id: 0,
            bit_position: 0,
            report_size: 0,
            report_count: 0,
            byte_position: 0,
            bit_count: 0,
            bit_field: 0,
            next_byte_position: 0,
            link_collection: 0,
            link_usage_page: 0,
            link_usage: 0,
            flags: 0,
            reserved: (0, 0, 0),
            unknown_tokens: (token, token, token, token),
            usage_words: Range {
                usage_min: 0,
                usage_max: 0,
                string_min: 0,
                string_max: 0,
                designator_min: 0,
                designator_max: 0,
                data_index_min: 0,
                data_index_max: 0,
            },
            bounds_words: (0, 0, 0, 0, 0),
            units: 0,
            units_exp: 0,
        }
    }

    /// The record stored in the 104 bytes from `at`.
    pub open spec fn spec_from_bytes(bytes: Seq<u8>, at: int) -> Caps {
        Caps {
            usage_page: spec_u16_at(bytes, at),
            report_id: bytes[at + 2],
            bit_position: bytes[at + 3],
            report_size: spec_u16_at(bytes, at + 4),
            report_count: spec_u16_at(bytes, at + 6),
            byte_position: spec_u16_at(bytes, at + 8),
            bit_count: spec_u16_at(bytes, at + 10),
            bit_field: spec_u32_at(bytes, at + 12),
            next_byte_position: spec_u16_at(bytes, at + 16),
            link_collection: spec_u16_at(bytes, at + 18),
            link_usage_page: spec_u16_at(bytes, at + 20),
            link_usage: spec_u16_at(bytes, at + 22),
            flags: bytes[at + 24],
            reserved: (bytes[at + 25], bytes[at + 26], bytes[at + 27]),
            unknown_tokens: (
                UnknownToken::spec_from_bytes(bytes, at + 28),
                UnknownToken::spec_from_bytes(bytes, at + 36),
                UnknownToken::spec_from_bytes(bytes, at + 44),
                UnknownToken::spec_from_bytes(bytes, at + 52),
            ),
            usage_words: Range {
                usage_min: spec_u16_at(bytes, at + 60),
                usage_max: spec_u16_at(bytes, at + 62),
                string_min: spec_u16_at(bytes, at + 64),
                string_max: spec_u16_at(bytes, at + 66),
                designator_min: spec_u16_at(bytes, at + 68),
                designator_max: spec_u16_at(bytes, at + 70),
                data_index_min: spec_u16_at(bytes, at + 72),
                data_index_max: spec_u16_at(bytes, at + 74),
            },
            bounds_words: (
                spec_i32_at(bytes, at + 76),
                spec_i32_at(bytes, at + 80),
                spec_i32_at(bytes, at + 84),
                spec_i32_at(bytes, at + 88),
                spec_i32_at(bytes, at + 92),
            ),
            units: spec_u32_at(bytes, at + 96),
            units_exp: spec_u32_at(bytes, at + 100),
        }
    }

    pub fn from_bytes(bytes: &[u8], at: usize) -> (caps: Caps)
        requires
            at + CAPS_SIZE <= bytes.len(),
        ensures
            caps == Self::spec_from_bytes(bytes@, at as int),
    {
        Caps {
            usage_page: u16_at(bytes, at),
            report_id: bytes[at + 2],
            bit_position: bytes[at + 3],
            report_size: u16_at(bytes, at + 4),
            report_count: u16_at(bytes, at + 6),
            byte_position: u16_at(bytes, at + 8),
            bit_count: u16_at(bytes, at + 10),
            bit_field: u32_at(bytes, at + 12),
            next_byte_position: u16_at(bytes, at + 16),
            link_collection: u16_at(bytes, at + 18),
            link_usage_page: u16_at(bytes, at + 20),
            link_usage: u16_at(bytes, at + 22),
            flags: bytes[at + 24],
            reserved: (bytes[at + 25], bytes[at + 26], bytes[at + 27]),
            unknown_tokens: (
                UnknownToken::from_bytes(bytes, at + 28),
                UnknownToken::from_bytes(bytes, at + 36),
                UnknownToken::from_bytes(bytes, at + 44),
                UnknownToken::from_bytes(bytes, at + 52),
            ),
            usage_words: Range {
                usage_min: u16_at(bytes, at + 60),
                usage_max: u16_at(bytes, at + 62),
                string_min: u16_at(bytes, at + 64),
                string_max: u16_at(bytes, at + 66),
                designator_min: u16_at(bytes, at + 68),
                designator_max: u16_at(bytes, at + 70),
                data_index_min: u16_at(bytes, at + 72),
                data_index_max: u16_at(bytes, at + 74),
            },
            bounds_words: (
                i32_at(bytes, at + 76),
                i32_at(bytes, at + 80),
                i32_at(bytes, at + 84),
                i32_at(bytes, at + 88),
                i32_at(bytes, at + 92),
            ),
            units: u32_at(bytes, at + 96),
            units_exp: u32_at(bytes, at + 100),
        }
    }
}

/// The header of the preparsed data.
#[derive(Copy, Clone, Debug)]
pub struct HidpPreparsedData {
    /// The eight bytes that every preparsed data block starts with.
    pub magic_key: (u8, u8, u8, u8, u8, u8, u8, u8),
    /// The usage of the top-level collection.
    pub usage: Usage,
    /// The usage page of the top-level collection.
    pub usage_page: Usage,
    pub reserved: (u16, u16),
    /// One record per report type: input, output, feature.
    pub caps_info: (CapsInfo, CapsInfo, CapsInfo),
    /// Distance in bytes from the first capability record to the first link
    /// collection node.
    pub first_byte_of_link_collection_array: u16,
    pub number_link_collection_nodes: u16,
}

/// The signature of a preparsed data block: the text `HidP KDR`.
pub open spec fn spec_magic_key() -> (u8, u8, u8, u8, u8, u8, u8, u8) {
    (0x48, 0x69, 0x64, 0x50, 0x20, 0x4B, 0x44, 0x52)
}

impl HidpPreparsedData {
    /// The record of one report type.
    pub open spec fn spec_caps_info_of(&self, index: int) -> CapsInfo {
        if index == 0 {
            self.caps_info.0
        } else if index == 1 {
            self.caps_info.1
        } else {
            self.caps_info.2
        }
    }

    /// The record of one report type, by its index: 0 input, 1 output,
    /// 2 feature.
    pub fn caps_info_of(&self, index: usize) -> (info: CapsInfo)
        ensures
            info == self.spec_caps_info_of(index as int),
    {
        if index == 0 {
            self.caps_info.0
        } else if index == 1 {
            self.caps_info.1
        } else {
            self.caps_info.2
        }
    }

    /// Whether the header starts with the signature.
    pub open spec fn spec_has_magic_key(&self) -> bool {
        self.magic_key == spec_magic_key()
    }

    pub fn has_magic_key(&self) -> (ok: bool)
        ensures
            ok == self.spec_has_magic_key(),
    {
        self.magic_key.0 == 0x48 && self.magic_key.1 == 0x69 && self.magic_key.2 == 0x64
            && self.magic_key.3 == 0x50 && self.magic_key.4 == 0x20 && self.magic_key.5 == 0x4B
            && self.magic_key.6 == 0x44 && self.magic_key.7 == 0x52
    }

    /// Number of records in the capability array: the largest end of the
    /// three report types.
    pub open spec fn spec_caps_len(&self) -> int {
        let a = self.caps_info.0.last_cap;
        let b = self.caps_info.1.last_cap;
        let c = self.caps_info.2.last_cap;
        if a >= b && a >= c {
            a as int
        } else if b >= c {
            b as int
        } else {
            c as int
        }
    }

    pub fn caps_len(&self) -> (len: usize)
        ensures
            len == self.spec_caps_len(),
    {
        let a = self.caps_info.0.last_cap;
        let b = self.caps_info.1.last_cap;
        let c = self.caps_info.2.last_cap;
        if a >= b && a >= c {
            a as usize
        } else if b >= c {
            b as usize
        } else {
            c as usize
        }
    }

    /// Number of bytes of the block that the header starts: up to the end
    /// of the capability array or of the link collection nodes, whichever
    /// is further.
    pub open spec fn spec_block_len(&self) -> int {
        let caps_end = HEADER_SIZE + self.spec_caps_len() * CAPS_SIZE;
        let nodes_end = HEADER_SIZE + self.first_byte_of_link_collection_array
            + self.number_link_collection_nodes * LINK_COLLECTION_NODE_SIZE;
        if caps_end >= nodes_end {
            caps_end
        } else {
            nodes_end
        }
    }

    /// Tells how many bytes are to be read of a block of which only the
    /// header is known.
    pub fn block_len(&self) -> (len: usize)
        ensures
            len == self.spec_block_len(),
    {
        let caps_end: usize = HEADER_SIZE + self.caps_len() * CAPS_SIZE;
        let nodes_end: usize = HEADER_SIZE + self.first_byte_of_link_collection_array as usize
            + self.number_link_collection_nodes as usize * LINK_COLLECTION_NODE_SIZE;
        if caps_end >= nodes_end {
            caps_end
        } else {
            nodes_end
        }
    }

    /// The header stored in the first 44 bytes.
    pub open spec fn spec_from_bytes(bytes: Seq<u8>) -> HidpPreparsedData {
        HidpPreparsedData {
            magic_key: (
                bytes[0],
                bytes[1],
                bytes[2],
                bytes[3],
                bytes[4],
                bytes[5],
                bytes[6],
                bytes[7],
            ),
            usage: spec_u16_at(bytes, 8),
            usage_page: spec_u16_at(bytes, 10),
            reserved: (spec_u16_at(bytes, 12), spec_u16_at(bytes, 14)),
            caps_info: (
                CapsInfo::spec_from_bytes(bytes, 16),
                CapsInfo::spec_from_bytes(bytes, 24),
                CapsInfo::spec_from_bytes(bytes, 32),
            ),
            first_byte_of_link_collection_array: spec_u16_at(bytes, 40),
            number_link_collection_nodes: spec_u16_at(bytes, 42),
        }
    }

    pub fn from_bytes(bytes: &[u8]) -> (header: HidpPreparsedData)
        requires
            HEADER_SIZE <= bytes.len(),
        ensures
            header == Self::spec_from_bytes(bytes@),
    {
        HidpPreparsedData {
            magic_key: (
                bytes[0],
                bytes[1],
                bytes[2],
                bytes[3],
                bytes[4],
                bytes[5],
                bytes[6],
                bytes[7],
            ),
            usage: u16_at(bytes, 8),
            usage_page: u16_at(bytes, 10),
            reserved: (u16_at(bytes, 12), u16_at(bytes, 14)),
            caps_info: (
                CapsInfo::from_bytes(bytes, 16),
                CapsInfo::from_bytes(bytes, 24),
                CapsInfo::from_bytes(bytes, 32),
            ),
            first_byte_of_link_collection_array: u16_at(bytes, 40),
            number_link_collection_nodes: u16_at(bytes, 42),
        }
    }
}

} // verus!

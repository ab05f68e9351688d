//! Encoding of the main item list as the short items of a report descriptor.
//!
//! A short item is a prefix byte, the tag of the item plus a size code,
//! followed by 0, 1, 2 or 4 bytes of data, low byte first. Global items are
//! written only where their value differs from the one in force.

use vstd::prelude::*;
use crate::windows_native::descriptor::typedefs::{Caps, LinkCollectionNode};
use crate::windows_native::descriptor::types::{ItemNodeType, Items, MainItemNode, MainItems};
use crate::windows_native::error::WinError;

verus! {

/// Whether `data` can be stored in `width` bytes, as a two's complement
/// number where `signed` and as a plain binary number where not.
pub open spec fn spec_fits(data: int, width: nat, signed: bool) -> bool {
    if signed {
        ||| width == 1 && -0x80 <= data <= 0x7f
        ||| width == 2 && -0x8000 <= data <= 0x7fff
        ||| width == 4 && -0x8000_0000 <= data <= 0x7fff_ffff
    } else {
        ||| width == 1 && 0 <= data <= 0xff
        ||| width == 2 && 0 <= data <= 0xffff
        ||| width == 4 && 0 <= data <= 0xffff_ffff
    }
}

/// The number of data bytes of a short item that carries the signed value
/// `data`; none where four bytes do not hold it.
pub open spec fn spec_signed_width(data: int) -> Option<nat> {
    if -0x80 <= data <= 0x7f {
        Some(1)
    } else if -0x8000 <= data <= 0x7fff {
        Some(2)
    } else if -0x8000_0000 <= data <= 0x7fff_ffff {
        Some(4)
    } else {
        None
    }
}

/// The number of data bytes of a short item that carries the unsigned value
/// `data`; none where four bytes do not hold it.
pub open spec fn spec_unsigned_width(data: int) -> Option<nat> {
    if 0 <= data <= 0xff {
        Some(1)
    } else if 0 <= data <= 0xffff {
        Some(2)
    } else if 0 <= data <= 0xffff_ffff {
        Some(4)
    } else {
        None
    }
}

/// The number of data bytes of the short item `item` with the value `data`.
/// The end of a collection has no data, whatever `data` is.
pub open spec fn spec_data_width(item: Items, data: int) -> Option<nat> {
    if item == Items::MainCollectionEnd {
        Some(0)
    } else if item.spec_is_signed() {
        spec_signed_width(data)
    } else {
        spec_unsigned_width(data)
    }
}

/// The size code in the prefix byte for a number of data bytes.
pub open spec fn spec_size_code(width: nat) -> int {
    if width == 4 {
        3
    } else {
        width as int
    }
}

/// 256 to the power of `index`, for the four byte positions.
pub open spec fn spec_byte_weight(index: int) -> int {
    if index == 0 {
        1
    } else if index == 1 {
        0x100
    } else if index == 2 {
        0x1_0000
    } else {
        0x100_0000
    }
}

/// The byte at `index` of the two's complement form of `data`.
pub open spec fn spec_le_byte(data: int, index: int) -> u8 {
    ((data / spec_byte_weight(index)) % 256) as u8
}

/// The lowest `width` bytes of the two's complement form of `data`, low
/// byte first.
pub open spec fn spec_le_bytes(data: int, width: nat) -> Seq<u8> {
    Seq::new(width, |index: int| spec_le_byte(data, index))
}

/// The number that `bytes` store, low byte first, for 1, 2 or 4 bytes.
pub open spec fn spec_le_value(bytes: Seq<u8>, signed: bool) -> int {
    let unsigned: int = if bytes.len() == 1 {
        bytes[0] as int
    } else if bytes.len() == 2 {
        bytes[0] as int + 0x100 * (bytes[1] as int)
    } else {
        bytes[0] as int + 0x100 * (bytes[1] as int) + 0x1_0000 * (bytes[2] as int) + 0x100_0000 * (
        bytes[3] as int)
    };
    let half: int = if bytes.len() == 1 {
        0x80
    } else if bytes.len() == 2 {
        0x8000
    } else {
        0x8000_0000
    };
    if signed && unsigned >= half {
        unsigned - 2 * half
    } else {
        unsigned
    }
}

/// The bytes of the short item `item` with the value `data`: the prefix
/// byte, then the data in the smallest of 1, 2 and 4 bytes that holds it.
pub open spec fn spec_short_item(item: Items, data: int) -> Option<Seq<u8>> {
    match spec_data_width(item, data) {
        Some(width) => Some(
            seq![(item.spec_tag() + spec_size_code(width)) as u8] + spec_le_bytes(data, width),
        ),
        None => None,
    }
}

/// The descriptor `out` with the short item appended; `out` itself where the
/// value does not fit a short item.
pub open spec fn spec_write(out: Seq<u8>, item: Items, data: int) -> Seq<u8> {
    match spec_short_item(item, data) {
        Some(bytes) => out + bytes,
        None => out,
    }
}

/// The data of a short item takes the smallest of the widths 1, 2 and 4
/// that holds the value, signed for the logical and physical bounds and
/// unsigned for every other item, and there is no width exactly where four
/// bytes do not hold the value.
pub proof fn lemma_short_item_width_is_minimal(item: Items, data: int)
    requires
        item != Items::MainCollectionEnd,
    ensures
        match spec_data_width(item, data) {
            Some(width) => {
                &&& width == 1 || width == 2 || width == 4
                &&& spec_fits(data, width, item.spec_is_signed())
                &&& forall|smaller: nat|
                    smaller < width ==> !spec_fits(data, smaller, item.spec_is_signed())
            },
            None => forall|width: nat| !spec_fits(data, width, item.spec_is_signed()),
        },
{
}

/// The data bytes of a short item give the value back: nothing is lost in
/// the width that was chosen.
pub proof fn lemma_short_item_is_lossless(item: Items, data: int)
    requires
        item != Items::MainCollectionEnd,
        spec_data_width(item, data) is Some,
    ensures
        spec_le_value(
            spec_le_bytes(data, spec_data_width(item, data)->0),
            item.spec_is_signed(),
        ) == data,
{
    let width = spec_data_width(item, data)->0;
    let bytes = spec_le_bytes(data, width);
    assert(bytes.len() == width);
    assert(bytes[0] == spec_le_byte(data, 0));
    if width >= 2 {
        assert(bytes[1] == spec_le_byte(data, 1));
    }
    if width == 4 {
        assert(bytes[2] == spec_le_byte(data, 2));
        assert(bytes[3] == spec_le_byte(data, 3));
    }
}

/// The byte at `index` of the two's complement form of `data`.
fn le_byte(data: i64, index: usize) -> (byte: u8)
    requires
        -0x8000_0000 <= data <= 0xffff_ffff,
        index < 4,
    ensures
        byte == spec_le_byte(data as int, index as int),
{
    let unsigned: u64 = if data < 0 {
        (data + 0x1_0000_0000) as u64
    } else {
        data as u64
    };
    if index == 0 {
        assert((data + 0x1_0000_0000) % 256 == data % 256);
        (unsigned % 256) as u8
    } else if index == 1 {
        assert((data + 0x1_0000_0000) / 0x100 == data / 0x100 + 0x100_0000);
        (unsigned / 0x100 % 256) as u8
    } else if index == 2 {
        assert((data + 0x1_0000_0000) / 0x1_0000 == data / 0x1_0000 + 0x1_0000);
        (unsigned / 0x1_0000 % 256) as u8
    } else {
        assert((data + 0x1_0000_0000) / 0x100_0000 == data / 0x100_0000 + 0x100);
        (unsigned / 0x100_0000 % 256) as u8
    }
}

/// Collects the bytes of a report descriptor, one short item at a time.
pub struct DescriptorWriter(pub Vec<u8>);

impl View for DescriptorWriter {
    type V = Seq<u8>;

    open spec fn view(&self) -> Seq<u8> {
        self.0@
    }
}

impl DescriptorWriter {
    /// A writer that holds no bytes yet.
    pub fn new() -> (writer: DescriptorWriter)
        ensures
            writer@ == Seq::<u8>::empty(),
    {
        DescriptorWriter(Vec::new())
    }

    /// Appends the short item `item` with the value `data`, in the smallest
    /// width that holds the value. A value that four bytes do not hold is
    /// refused, and nothing is written.
    pub fn write(&mut self, item: Items, data: i64) -> (result: Result<(), WinError>)
        ensures
            final(self)@ == spec_write(old(self)@, item, data as int),
            spec_data_width(item, data as int) is Some ==> result is Ok,
            spec_data_width(item, data as int) is None ==> result == Err::<(), WinError>(
                WinError::InvalidPreparsedData,
            ),
    {
        let tag = item.tag();
        let width: usize = if item == Items::MainCollectionEnd {
            0
        } else if item.is_signed() {
            if -0x80 <= data && data <= 0x7f {
                1
            } else if -0x8000 <= data && data <= 0x7fff {
                2
            } else if -0x8000_0000 <= data && data <= 0x7fff_ffff {
                4
            } else {
                return Err(WinError::InvalidPreparsedData);
            }
        } else {
            if 0 <= data && data <= 0xff {
                1
            } else if 0 <= data && data <= 0xffff {
                2
            } else if 0 <= data && data <= 0xffff_ffff {
                4
            } else {
                return Err(WinError::InvalidPreparsedData);
            }
        };
        let size_code: u8 = if width == 4 {
            3
        } else {
            width as u8
        };
        self.0.push(tag + size_code);
        if width >= 1 {
            self.0.push(le_byte(data, 0));
        }
        if width >= 2 {
            self.0.push(le_byte(data, 1));
        }
        if width == 4 {
            self.0.push(le_byte(data, 2));
            self.0.push(le_byte(data, 3));
        }
        assert(self.0@ =~= spec_write(old(self)@, item, data as int));
        Ok(())
    }

    /// Appends a short item whose value is known to fit.
    fn put(&mut self, item: Items, data: i64)
        requires
            spec_data_width(item, data as int) is Some,
        ensures
            final(self)@ == spec_write(old(self)@, item, data as int),
    {
        match self.write(item, data) {
            Ok(()) => {},
            Err(_) => {},
        }
    }

    /// The bytes written so far.
    pub fn finish(self) -> (bytes: Vec<u8>)
        ensures
            bytes@ == self@,
    {
        self.0
    }
}

/// The global items in force while a descriptor is written, and what is
/// carried from one node of the main item list to the next.
#[derive(Copy, Clone, Debug, PartialEq, Eq, Structural)]
pub struct EncoderState {
    pub last_report_id: u8,
    pub last_usage_page: u16,
    pub last_physical_min: i32,
    pub last_physical_max: i32,
    pub last_unit_exponent: u32,
    pub last_unit: u32,
    /// Set by the end of a set of aliased usages: the usage of the item that
    /// follows was written inside the set already.
    pub inhibit_write_of_usage: bool,
    /// Number of fields that were left out because the field after them has
    /// the same global items; they are counted in its report count.
    pub report_count: u16,
}

/// The state at the start of a descriptor: every global item at zero.
pub open spec fn spec_initial_state() -> EncoderState {
    EncoderState {
        last_report_id: 0,
        last_usage_page: 0,
        last_physical_min: 0,
        last_physical_max: 0,
        last_unit_exponent: 0,
        last_unit: 0,
        inhibit_write_of_usage: false,
        report_count: 0,
    }
}

/// The main item that closes the fields of a report type.
pub open spec fn spec_main_item(kind: MainItems) -> Items {
    match kind {
        MainItems::Output => Items::MainOutput,
        MainItems::Feature => Items::MainFeature,
        _ => Items::MainInput,
    }
}

fn main_item(kind: MainItems) -> (item: Items)
    ensures
        item == spec_main_item(kind),
        !item.spec_is_signed(),
        item != Items::MainCollectionEnd,
{
    match kind {
        MainItems::Output => Items::MainOutput,
        MainItems::Feature => Items::MainFeature,
        _ => Items::MainInput,
    }
}

/// The start of a collection: its usage page where that is not in force,
/// its usage unless a set of aliased usages stands before it, and the
/// collection item with the type of the collection.
pub open spec fn spec_encode_collection(
    out: Seq<u8>,
    state: EncoderState,
    node: LinkCollectionNode,
) -> (Seq<u8>, EncoderState) {
    let (out, state) = if state.last_usage_page != node.link_usage_page {
        (
            spec_write(out, Items::GlobalUsagePage, node.link_usage_page as int),
            EncoderState { last_usage_page: node.link_usage_page, ..state },
        )
    } else {
        (out, state)
    };
    let (out, state) = if state.inhibit_write_of_usage {
        (out, EncoderState { inhibit_write_of_usage: false, ..state })
    } else {
        (spec_write(out, Items::LocalUsage, node.link_usage as int), state)
    };
    (spec_write(out, Items::MainCollection, node.spec_collection_type() as int), state)
}

fn encode_collection(
    writer: &mut DescriptorWriter,
    state: EncoderState,
    node: &LinkCollectionNode,
) -> (next_state: EncoderState)
    ensures
        (final(writer)@, next_state) == spec_encode_collection(old(writer)@, state, *node),
{
    let mut state = state;
    if state.last_usage_page != node.link_usage_page {
        state.last_usage_page = node.link_usage_page;
        writer.put(Items::GlobalUsagePage, state.last_usage_page as i64);
    }
    if state.inhibit_write_of_usage {
        state.inhibit_write_of_usage = false;
    } else {
        writer.put(Items::LocalUsage, node.link_usage as i64);
    }
    writer.put(Items::MainCollection, node.collection_type() as i64);
    state
}

/// The start of a set of aliased usages: the usage page of the collection
/// where that is not in force, and the delimiter that opens the set.
pub open spec fn spec_encode_delimiter_open(
    out: Seq<u8>,
    state: EncoderState,
    node: LinkCollectionNode,
) -> (Seq<u8>, EncoderState) {
    let (out, state) = if state.last_usage_page != node.link_usage_page {
        (
            spec_write(out, Items::GlobalUsagePage, node.link_usage_page as int),
            EncoderState { last_usage_page: node.link_usage_page, ..state },
        )
    } else {
        (out, state)
    };
    (spec_write(out, Items::LocalDelimiter, 1), state)
}

fn encode_delimiter_open(
    writer: &mut DescriptorWriter,
    state: EncoderState,
    node: &LinkCollectionNode,
) -> (next_state: EncoderState)
    ensures
        (final(writer)@, next_state) == spec_encode_delimiter_open(old(writer)@, state, *node),
{
    let mut state = state;
    if state.last_usage_page != node.link_usage_page {
        state.last_usage_page = node.link_usage_page;
        writer.put(Items::GlobalUsagePage, state.last_usage_page as i64);
    }
    writer.put(Items::LocalDelimiter, 1);
    state
}

/// A run of padding bits: a constant field of one element as wide as the
/// run. There is none where the run is empty or wider than 65535 bits.
pub open spec fn spec_encode_padding(out: Seq<u8>, state: EncoderState, current: MainItemNode) -> Option<
    (Seq<u8>, EncoderState),
> {
    let bits = current.last_bit - current.first_bit + 1;
    if current.last_bit < current.first_bit || bits > u16::MAX {
        None
    } else {
        let out = spec_write(out, Items::GlobalReportSize, bits);
        let out = spec_write(out, Items::GlobalReportCount, 1);
        let out = spec_write(out, spec_main_item(current.main_item_type), 0x03);
        Some((out, EncoderState { report_count: 0, ..state }))
    }
}

fn encode_padding(writer: &mut DescriptorWriter, state: EncoderState, current: &MainItemNode) -> (next_state:
    Option<EncoderState>)
    ensures
        match spec_encode_padding(old(writer)@, state, *current) {
            Some((out, after)) => final(writer)@ == out && next_state == Some(after),
            None => final(writer)@ == old(writer)@ && next_state is None,
        },
{
    if current.last_bit < current.first_bit || current.last_bit - current.first_bit == u16::MAX {
        return None;
    }
    let mut state = state;
    writer.put(Items::GlobalReportSize, (current.last_bit - current.first_bit + 1) as i64);
    writer.put(Items::GlobalReportCount, 1);
    writer.put(main_item(current.main_item_type), 0x03);
    state.report_count = 0;
    Some(state)
}

/// The items that a field shares between buttons and values: its report id
/// and usage page where they are not in force, its usage or usage range
/// unless a set of aliased usages stands before it, and its designators and
/// strings. A button range adds the number of its data indices to the
/// running report count; there is no result where that leaves 16 bits.
pub open spec fn spec_encode_cap_locals(out: Seq<u8>, state: EncoderState, caps: Caps) -> Option<
    (Seq<u8>, EncoderState),
> {
    let (out, state) = if state.last_report_id != caps.report_id {
        (
            spec_write(out, Items::GlobalReportId, caps.report_id as int),
            EncoderState { last_report_id: caps.report_id, ..state },
        )
    } else {
        (out, state)
    };
    let (out, state) = if caps.usage_page != state.last_usage_page {
        (
            spec_write(out, Items::GlobalUsagePage, caps.usage_page as int),
            EncoderState { last_usage_page: caps.usage_page, ..state },
        )
    } else {
        (out, state)
    };
    let range = caps.spec_range();
    let single = caps.spec_not_range();
    let count = if caps.spec_is_button_cap() && caps.spec_is_range() {
        state.report_count + range.data_index_max - range.data_index_min
    } else {
        state.report_count as int
    };
    if caps.spec_is_button_cap() && caps.spec_is_range() && (range.data_index_max
        < range.data_index_min || count > u16::MAX) {
        None
    } else {
        let state = EncoderState { report_count: count as u16, ..state };
        let (out, state) = if state.inhibit_write_of_usage {
            (out, EncoderState { inhibit_write_of_usage: false, ..state })
        } else if caps.spec_is_range() {
            (
                spec_write(
                    spec_write(out, Items::LocalUsageMinimum, range.usage_min as int),
                    Items::LocalUsageMaximum,
                    range.usage_max as int,
                ),
                state,
            )
        } else {
            (spec_write(out, Items::LocalUsage, single.usage as int), state)
        };
        let out = if caps.spec_is_designator_range() {
            spec_write(
                spec_write(out, Items::LocalDesignatorMinimum, range.designator_min as int),
                Items::LocalDesignatorMaximum,
                range.designator_max as int,
            )
        } else if single.designator_index != 0 {
            spec_write(out, Items::LocalDesignatorIndex, single.designator_index as int)
        } else {
            out
        };
        let out = if caps.spec_is_string_range() {
            spec_write(
                spec_write(out, Items::LocalStringMinimum, range.string_min as int),
                Items::LocalStringMaximum,
                range.string_max as int,
            )
        } else if single.string_index != 0 {
            spec_write(out, Items::LocalString, single.string_index as int)
        } else {
            out
        };
        Some((out, state))
    }
}

fn encode_cap_locals(writer: &mut DescriptorWriter, state: EncoderState, caps: &Caps) -> (next_state:
    Option<EncoderState>)
    ensures
        match spec_encode_cap_locals(old(writer)@, state, *caps) {
            Some((out, after)) => final(writer)@ == out && next_state == Some(after),
            None => next_state is None,
        },
{
    let mut state = state;
    if state.last_report_id != caps.report_id {
        state.last_report_id = caps.report_id;
        writer.put(Items::GlobalReportId, state.last_report_id as i64);
    }
    if caps.usage_page != state.last_usage_page {
        state.last_usage_page = caps.usage_page;
        writer.put(Items::GlobalUsagePage, state.last_usage_page as i64);
    }
    let range = caps.range();
    let single = caps.not_range();
    if caps.is_button_cap() && caps.is_range() {
        if range.data_index_max < range.data_index_min {
            return None;
        }
        let added: u16 = range.data_index_max - range.data_index_min;
        if added > u16::MAX - state.report_count {
            return None;
        }
        state.report_count = state.report_count + added;
    }
    if state.inhibit_write_of_usage {
        state.inhibit_write_of_usage = false;
    } else if caps.is_range() {
        writer.put(Items::LocalUsageMinimum, range.usage_min as i64);
        writer.put(Items::LocalUsageMaximum, range.usage_max as i64);
    } else {
        writer.put(Items::LocalUsage, single.usage as i64);
    }
    if caps.is_designator_range() {
        writer.put(Items::LocalDesignatorMinimum, range.designator_min as i64);
        writer.put(Items::LocalDesignatorMaximum, range.designator_max as i64);
    } else if single.designator_index != 0 {
        writer.put(Items::LocalDesignatorIndex, single.designator_index as i64);
    }
    if caps.is_string_range() {
        writer.put(Items::LocalStringMinimum, range.string_min as i64);
        writer.put(Items::LocalStringMaximum, range.string_max as i64);
    } else if single.string_index != 0 {
        writer.put(Items::LocalString, single.string_index as i64);
    }
    Some(state)
}

/// Whether the button `caps` is left out because the node after it is a
/// button of the same report with the same usage page and flags, so that
/// both can share one set of global items. There is no answer where the
/// node after it names a capability that does not exist.
pub open spec fn spec_button_joins_next(
    current: MainItemNode,
    next: Option<MainItemNode>,
    caps: Caps,
    caps_list: Seq<Caps>,
) -> Option<bool> {
    match next {
        None => Some(false),
        Some(next) => if next.main_item_type == current.main_item_type && next.node_type
            == ItemNodeType::Cap && !caps.spec_is_range() {
            if 0 <= next.caps_index < caps_list.len() {
                let after = caps_list[next.caps_index as int];
                Some(
                    !after.spec_is_range() && after.spec_is_button_cap() && after.usage_page
                        == caps.usage_page && after.report_id == caps.report_id && after.bit_field
                        == caps.bit_field,
                )
            } else {
                None
            }
        } else {
            Some(false)
        },
    }
}

fn button_joins_next(
    current: &MainItemNode,
    next: Option<MainItemNode>,
    caps: &Caps,
    caps_list: &[Caps],
) -> (joins: Option<bool>)
    ensures
        joins == spec_button_joins_next(*current, next, *caps, caps_list@),
{
    match next {
        None => Some(false),
        Some(next) => if next.main_item_type == current.main_item_type && next.node_type
            == ItemNodeType::Cap && !caps.is_range() {
            if 0 <= next.caps_index && (next.caps_index as usize) < caps_list.len() {
                let after = &caps_list[next.caps_index as usize];
                Some(
                    !after.is_range() && after.is_button_cap() && after.usage_page
                        == caps.usage_page && after.report_id == caps.report_id && after.bit_field
                        == caps.bit_field,
                )
            } else {
                None
            }
        } else {
            Some(false)
        },
    }
}

/// The global items and the main item of a button that is not left out:
/// its logical bounds, 0 and 1 in place of 0 and 0; its report size; its
/// report count, with the fields that were left out before it where it is
/// no range; the physical bounds and the unit back at zero where they are
/// not; and the main item with the flags of the field. There is no result
/// where the report count leaves 16 bits.
pub open spec fn spec_encode_button_globals(
    out: Seq<u8>,
    state: EncoderState,
    kind: MainItems,
    caps: Caps,
) -> Option<(Seq<u8>, EncoderState)> {
    let bounds = caps.spec_button();
    let out = if bounds.logical_min == 0 && bounds.logical_max == 0 {
        spec_write(spec_write(out, Items::GlobalLogicalMinimum, 0), Items::GlobalLogicalMaximum, 1)
    } else {
        spec_write(
            spec_write(out, Items::GlobalLogicalMinimum, bounds.logical_min as int),
            Items::GlobalLogicalMaximum,
            bounds.logical_max as int,
        )
    };
    let out = spec_write(out, Items::GlobalReportSize, caps.report_size as int);
    let count = if caps.spec_is_range() {
        caps.report_count as int
    } else {
        caps.report_count + state.report_count
    };
    if count > u16::MAX {
        None
    } else {
        let out = spec_write(out, Items::GlobalReportCount, count);
        let out = if state.last_physical_min != 0 {
            spec_write(out, Items::GlobalPhysicalMinimum, 0)
        } else {
            out
        };
        let out = if state.last_physical_max != 0 {
            spec_write(out, Items::GlobalPhysicalMaximum, 0)
        } else {
            out
        };
        let out = if state.last_unit_exponent != 0 {
            spec_write(out, Items::GlobalUnitExponent, 0)
        } else {
            out
        };
        let out = if state.last_unit != 0 {
            spec_write(out, Items::GlobalUnit, 0)
        } else {
            out
        };
        let out = spec_write(out, spec_main_item(kind), caps.bit_field as int);
        Some(
            (
                out,
                EncoderState {
                    last_physical_min: 0,
                    last_physical_max: 0,
                    last_unit_exponent: 0,
                    last_unit: 0,
                    report_count: 0,
                    ..state
                },
            ),
        )
    }
}

fn encode_button_globals(
    writer: &mut DescriptorWriter,
    state: EncoderState,
    kind: MainItems,
    caps: &Caps,
) -> (next_state: Option<EncoderState>)
    ensures
        match spec_encode_button_globals(old(writer)@, state, kind, *caps) {
            Some((out, after)) => final(writer)@ == out && next_state == Some(after),
            None => next_state is None,
        },
{
    let mut state = state;
    let bounds = caps.button();
    if bounds.logical_min == 0 && bounds.logical_max == 0 {
        writer.put(Items::GlobalLogicalMinimum, 0);
        writer.put(Items::GlobalLogicalMaximum, 1);
    } else {
        writer.put(Items::GlobalLogicalMinimum, bounds.logical_min as i64);
        writer.put(Items::GlobalLogicalMaximum, bounds.logical_max as i64);
    }
    writer.put(Items::GlobalReportSize, caps.report_size as i64);
    if !caps.is_range() {
        if caps.report_count > u16::MAX - state.report_count {
            return None;
        }
        writer.put(Items::GlobalReportCount, (caps.report_count + state.report_count) as i64);
    } else {
        writer.put(Items::GlobalReportCount, caps.report_count as i64);
    }
    if state.last_physical_min != 0 {
        state.last_physical_min = 0;
        writer.put(Items::GlobalPhysicalMinimum, 0);
    }
    if state.last_physical_max != 0 {
        state.last_physical_max = 0;
        writer.put(Items::GlobalPhysicalMaximum, 0);
    }
    if state.last_unit_exponent != 0 {
        state.last_unit_exponent = 0;
        writer.put(Items::GlobalUnitExponent, 0);
    }
    if state.last_unit != 0 {
        state.last_unit = 0;
        writer.put(Items::GlobalUnit, 0);
    }
    writer.put(main_item(kind), caps.bit_field as i64);
    state.report_count = 0;
    Some(state)
}

/// The report count of a value: the stored one for a variable field (bit
/// 1 of the flags set), the number of data indices for an array. There is
/// none where that number leaves 16 bits.
pub open spec fn spec_value_report_count(caps: Caps) -> Option<u16> {
    if (caps.bit_field / 2) % 2 == 1 {
        Some(caps.report_count)
    } else {
        let range = caps.spec_range();
        let count = range.data_index_max - range.data_index_min + 1;
        if range.data_index_max < range.data_index_min || count > u16::MAX {
            None
        } else {
            Some(count as u16)
        }
    }
}

fn value_report_count(caps: &Caps) -> (count: Option<u16>)
    ensures
        count == spec_value_report_count(*caps),
{
    if (caps.bit_field / 2) % 2 == 1 {
        Some(caps.report_count)
    } else {
        let range = caps.range();
        if range.data_index_max < range.data_index_min || range.data_index_max
            - range.data_index_min == u16::MAX {
            None
        } else {
            Some(range.data_index_max - range.data_index_min + 1)
        }
    }
}

/// The capability that a node names, and a record of zeros where it names
/// none.
pub open spec fn spec_caps_or_zeroed(caps_list: Seq<Caps>, index: int) -> Caps {
    if 0 <= index < caps_list.len() {
        caps_list[index]
    } else {
        Caps::spec_zeroed()
    }
}

/// Whether the value `caps`, with the report count `count`, is left out
/// because the node after it is a single value of the same report with the
/// same bounds, unit, size and flags.
pub open spec fn spec_value_joins_next(
    current: MainItemNode,
    next: Option<MainItemNode>,
    caps: Caps,
    count: u16,
    caps_list: Seq<Caps>,
) -> bool {
    match next {
        None => false,
        Some(next) => {
            let after = spec_caps_or_zeroed(caps_list, next.caps_index as int);
            let bounds = caps.spec_not_button();
            let after_bounds = after.spec_not_button();
            &&& next.main_item_type == current.main_item_type
            &&& next.node_type == ItemNodeType::Cap
            &&& !after.spec_is_button_cap()
            &&& !caps.spec_is_range()
            &&& !after.spec_is_range()
            &&& after.usage_page == caps.usage_page
            &&& after_bounds.logical_min == bounds.logical_min
            &&& after_bounds.logical_max == bounds.logical_max
            &&& after_bounds.physical_min == bounds.physical_min
            &&& after_bounds.physical_max == bounds.physical_max
            &&& after.units_exp == caps.units_exp
            &&& after.units == caps.units
            &&& after.report_size == caps.report_size
            &&& after.report_id == caps.report_id
            &&& after.bit_field == caps.bit_field
            &&& after.report_count == 1
            &&& count == 1
        },
    }
}

fn value_joins_next(
    current: &MainItemNode,
    next: Option<MainItemNode>,
    caps: &Caps,
    count: u16,
    caps_list: &[Caps],
) -> (joins: bool)
    ensures
        joins == spec_value_joins_next(*current, next, *caps, count, caps_list@),
{
    match next {
        None => false,
        Some(next) => {
            let after = if 0 <= next.caps_index && (next.caps_index as usize) < caps_list.len() {
                caps_list[next.caps_index as usize]
            } else {
                Caps::zeroed()
            };
            let bounds = caps.not_button();
            let after_bounds = after.not_button();
            next.main_item_type == current.main_item_type && next.node_type == ItemNodeType::Cap
                && !after.is_button_cap() && !caps.is_range() && !after.is_range()
                && after.usage_page == caps.usage_page && after_bounds.logical_min
                == bounds.logical_min && after_bounds.logical_max == bounds.logical_max
                && after_bounds.physical_min == bounds.physical_min && after_bounds.physical_max
                == bounds.physical_max && after.units_exp == caps.units_exp && after.units
                == caps.units && after.report_size == caps.report_size && after.report_id
                == caps.report_id && after.bit_field == caps.bit_field && after.report_count == 1
                && count == 1
        },
    }
}

/// The global items and the main item of a value that is not left out: its
/// logical bounds; its physical bounds, unit exponent and unit where they
/// are not in force; its report size; its report count `count` with the
/// fields that were left out before it; and the main item with the flags
/// of the field. There is no result where the report count leaves 16 bits.
pub open spec fn spec_encode_value_globals(
    out: Seq<u8>,
    state: EncoderState,
    kind: MainItems,
    caps: Caps,
    count: u16,
) -> Option<(Seq<u8>, EncoderState)> {
    let bounds = caps.spec_not_button();
    let out = spec_write(
        spec_write(out, Items::GlobalLogicalMinimum, bounds.logical_min as int),
        Items::GlobalLogicalMaximum,
        bounds.logical_max as int,
    );
    let (out, state) = if state.last_physical_min != bounds.physical_min || state.last_physical_max
        != bounds.physical_max {
        (
            spec_write(
                spec_write(out, Items::GlobalPhysicalMinimum, bounds.physical_min as int),
                Items::GlobalPhysicalMaximum,
                bounds.physical_max as int,
            ),
            EncoderState {
                last_physical_min: bounds.physical_min,
                last_physical_max: bounds.physical_max,
                ..state
            },
        )
    } else {
        (out, state)
    };
    let (out, state) = if state.last_unit_exponent != caps.units_exp {
        (
            spec_write(out, Items::GlobalUnitExponent, caps.units_exp as int),
            EncoderState { last_unit_exponent: caps.units_exp, ..state },
        )
    } else {
        (out, state)
    };
    let (out, state) = if state.last_unit != caps.units {
        (
            spec_write(out, Items::GlobalUnit, caps.units as int),
            EncoderState { last_unit: caps.units, ..state },
        )
    } else {
        (out, state)
    };
    let out = spec_write(out, Items::GlobalReportSize, caps.report_size as int);
    if count + state.report_count > u16::MAX {
        None
    } else {
        let out = spec_write(out, Items::GlobalReportCount, count + state.report_count);
        let out = spec_write(out, spec_main_item(kind), caps.bit_field as int);
        Some((out, EncoderState { report_count: 0, ..state }))
    }
}

fn encode_value_globals(
    writer: &mut DescriptorWriter,
    state: EncoderState,
    kind: MainItems,
    caps: &Caps,
    count: u16,
) -> (next_state: Option<EncoderState>)
    ensures
        match spec_encode_value_globals(old(writer)@, state, kind, *caps, count) {
            Some((out, after)) => final(writer)@ == out && next_state == Some(after),
            None => next_state is None,
        },
{
    let mut state = state;
    let bounds = caps.not_button();
    writer.put(Items::GlobalLogicalMinimum, bounds.logical_min as i64);
    writer.put(Items::GlobalLogicalMaximum, bounds.logical_max as i64);
    if state.last_physical_min != bounds.physical_min || state.last_physical_max
        != bounds.physical_max {
        state.last_physical_min = bounds.physical_min;
        state.last_physical_max = bounds.physical_max;
        writer.put(Items::GlobalPhysicalMinimum, state.last_physical_min as i64);
        writer.put(Items::GlobalPhysicalMaximum, state.last_physical_max as i64);
    }
    if state.last_unit_exponent != caps.units_exp {
        state.last_unit_exponent = caps.units_exp;
        writer.put(Items::GlobalUnitExponent, state.last_unit_exponent as i64);
    }
    if state.last_unit != caps.units {
        state.last_unit = caps.units;
        writer.put(Items::GlobalUnit, state.last_unit as i64);
    }
    writer.put(Items::GlobalReportSize, caps.report_size as i64);
    if count > u16::MAX - state.report_count {
        return None;
    }
    writer.put(Items::GlobalReportCount, (count + state.report_count) as i64);
    writer.put(main_item(kind), caps.bit_field as i64);
    state.report_count = 0;
    Some(state)
}

/// What a field of a report adds to the descriptor: a button or a value,
/// with the node `next` after it in the list.
pub open spec fn spec_encode_cap(
    out: Seq<u8>,
    state: EncoderState,
    current: MainItemNode,
    next: Option<MainItemNode>,
    caps_list: Seq<Caps>,
) -> Option<(Seq<u8>, EncoderState)> {
    if !(0 <= current.caps_index < caps_list.len()) {
        None
    } else {
        let caps = caps_list[current.caps_index as int];
        match spec_encode_cap_locals(out, state, caps) {
            None => None,
            Some((out, state)) => if caps.spec_is_button_cap() {
                match spec_button_joins_next(current, next, caps, caps_list) {
                    None => None,
                    Some(true) => if next->0.first_bit != current.first_bit {
                        if state.report_count == u16::MAX {
                            None
                        } else {
                            Some(
                                (
                                    out,
                                    EncoderState {
                                        report_count: (state.report_count + 1) as u16,
                                        ..state
                                    },
                                ),
                            )
                        }
                    } else {
                        Some((out, state))
                    },
                    Some(false) => spec_encode_button_globals(
                        out,
                        state,
                        current.main_item_type,
                        caps,
                    ),
                }
            } else {
                match spec_value_report_count(caps) {
                    None => None,
                    Some(count) => if spec_value_joins_next(current, next, caps, count, caps_list) {
                        if state.report_count == u16::MAX {
                            None
                        } else {
                            Some(
                                (
                                    out,
                                    EncoderState {
                                        report_count: (state.report_count + 1) as u16,
                                        ..state
                                    },
                                ),
                            )
                        }
                    } else {
                        spec_encode_value_globals(out, state, current.main_item_type, caps, count)
                    },
                }
            },
        }
    }
}

fn encode_cap(
    writer: &mut DescriptorWriter,
    state: EncoderState,
    current: &MainItemNode,
    next: Option<MainItemNode>,
    caps_list: &[Caps],
) -> (next_state: Option<EncoderState>)
    ensures
        match spec_encode_cap(old(writer)@, state, *current, next, caps_list@) {
            Some((out, after)) => final(writer)@ == out && next_state == Some(after),
            None => next_state is None,
        },
{
    if !(0 <= current.caps_index && (current.caps_index as usize) < caps_list.len()) {
        return None;
    }
    let caps = &caps_list[current.caps_index as usize];
    let mut state = match encode_cap_locals(writer, state, caps) {
        None => { return None; },
        Some(state) => state,
    };
    if caps.is_button_cap() {
        match button_joins_next(current, next, caps, caps_list) {
            None => None,
            Some(true) => {
                let after = match next {
                    Some(after) => after,
                    None => { return None; },
                };
                if after.first_bit != current.first_bit {
                    if state.report_count == u16::MAX {
                        return None;
                    }
                    state.report_count = state.report_count + 1;
                }
                Some(state)
            },
            Some(false) => encode_button_globals(writer, state, current.main_item_type, caps),
        }
    } else {
        let count = match value_report_count(caps) {
            None => { return None; },
            Some(count) => count,
        };
        if value_joins_next(current, next, caps, count, caps_list) {
            if state.report_count == u16::MAX {
                return None;
            }
            state.report_count = state.report_count + 1;
            Some(state)
        } else {
            encode_value_globals(writer, state, current.main_item_type, caps, count)
        }
    }
}

/// What one node of the main item list adds to the descriptor `out`, and
/// the state after it. There is no result where the node names a collection
/// or a capability that does not exist, or where a size or count that is
/// computed for it leaves 16 bits.
pub open spec fn spec_encode_item(
    out: Seq<u8>,
    state: EncoderState,
    current: MainItemNode,
    next: Option<MainItemNode>,
    caps_list: Seq<Caps>,
    link_collection_nodes: Seq<LinkCollectionNode>,
) -> Option<(Seq<u8>, EncoderState)> {
    let in_nodes = current.collection_index < link_collection_nodes.len();
    let node = link_collection_nodes[current.collection_index as int];
    match current.main_item_type {
        MainItems::Collection => if in_nodes {
            Some(spec_encode_collection(out, state, node))
        } else {
            None
        },
        MainItems::CollectionEnd => Some((spec_write(out, Items::MainCollectionEnd, 0), state)),
        MainItems::DelimiterOpen => if in_nodes {
            Some(spec_encode_delimiter_open(out, state, node))
        } else {
            None
        },
        MainItems::DelimiterUsage => if in_nodes {
            Some((spec_write(out, Items::LocalUsage, node.link_usage as int), state))
        } else {
            None
        },
        MainItems::DelimiterClose => Some(
            (
                spec_write(out, Items::LocalDelimiter, 0),
                EncoderState { inhibit_write_of_usage: true, ..state },
            ),
        ),
        _ => if current.node_type == ItemNodeType::Padding {
            spec_encode_padding(out, state, current)
        } else {
            spec_encode_cap(out, state, current, next, caps_list)
        },
    }
}

fn encode_item(
    writer: &mut DescriptorWriter,
    state: EncoderState,
    current: &MainItemNode,
    next: Option<MainItemNode>,
    caps_list: &[Caps],
    link_collection_nodes: &[LinkCollectionNode],
) -> (next_state: Option<EncoderState>)
    ensures
        match spec_encode_item(
            old(writer)@,
            state,
            *current,
            next,
            caps_list@,
            link_collection_nodes@,
        ) {
            Some((out, after)) => final(writer)@ == out && next_state == Some(after),
            None => next_state is None,
        },
{
    let in_nodes = current.collection_index < link_collection_nodes.len();
    match current.main_item_type {
        MainItems::Collection => {
            if !in_nodes {
                return None;
            }
            Some(encode_collection(writer, state, &link_collection_nodes[current.collection_index]))
        },
        MainItems::CollectionEnd => {
            writer.put(Items::MainCollectionEnd, 0);
            Some(state)
        },
        MainItems::DelimiterOpen => {
            if !in_nodes {
                return None;
            }
            Some(
                encode_delimiter_open(
                    writer,
                    state,
                    &link_collection_nodes[current.collection_index],
                ),
            )
        },
        MainItems::DelimiterUsage => {
            if !in_nodes {
                return None;
            }
            writer.put(
                Items::LocalUsage,
                link_collection_nodes[current.collection_index].link_usage as i64,
            );
            Some(state)
        },
        MainItems::DelimiterClose => {
            writer.put(Items::LocalDelimiter, 0);
            let mut state = state;
            state.inhibit_write_of_usage = true;
            Some(state)
        },
        _ => {
            if current.node_type == ItemNodeType::Padding {
                encode_padding(writer, state, current)
            } else {
                encode_cap(writer, state, current, next, caps_list)
            }
        },
    }
}

/// The node after position `at` of the list, if there is one.
pub open spec fn spec_next_node(main_item_list: Seq<MainItemNode>, at: int) -> Option<MainItemNode> {
    if at + 1 < main_item_list.len() {
        Some(main_item_list[at + 1])
    } else {
        None
    }
}

/// The descriptor `out` continued with the nodes of the list from position
/// `at` on, each encoded in the state that the node before it left.
pub open spec fn spec_encode_from(
    main_item_list: Seq<MainItemNode>,
    caps_list: Seq<Caps>,
    link_collection_nodes: Seq<LinkCollectionNode>,
    at: int,
    out: Seq<u8>,
    state: EncoderState,
) -> Option<Seq<u8>>
    decreases main_item_list.len() - at,
{
    if at < 0 || at >= main_item_list.len() {
        Some(out)
    } else {
        match spec_encode_item(
            out,
            state,
            main_item_list[at],
            spec_next_node(main_item_list, at),
            caps_list,
            link_collection_nodes,
        ) {
            None => None,
            Some((out, state)) => spec_encode_from(
                main_item_list,
                caps_list,
                link_collection_nodes,
                at + 1,
                out,
                state,
            ),
        }
    }
}

/// The report descriptor that a main item list stands for.
pub open spec fn spec_encode_descriptor(
    main_item_list: Seq<MainItemNode>,
    caps_list: Seq<Caps>,
    link_collection_nodes: Seq<LinkCollectionNode>,
) -> Option<Seq<u8>> {
    spec_encode_from(
        main_item_list,
        caps_list,
        link_collection_nodes,
        0,
        Seq::empty(),
        spec_initial_state(),
    )
}

/// Writes the report descriptor that a main item list stands for: its nodes
/// in order, each as the short items of [`spec_encode_item`].
///
/// The list is refused with `InvalidPreparsedData` where a node names a
/// collection or a capability that is not in the arrays, or where a report
/// size or count leaves 16 bits.
pub fn encode_descriptor(
    main_item_list: &[MainItemNode],
    caps_list: &[Caps],
    link_collection_nodes: &[LinkCollectionNode],
) -> (result: Result<Vec<u8>, WinError>)
    ensures
        match spec_encode_descriptor(main_item_list@, caps_list@, link_collection_nodes@) {
            Some(descriptor) => result is Ok && result->Ok_0@ == descriptor,
            None => result == Err::<Vec<u8>, WinError>(WinError::InvalidPreparsedData),
        },
{
    let mut writer = DescriptorWriter::new();
    let mut state = EncoderState {
        last_report_id: 0,
        last_usage_page: 0,
        last_physical_min: 0,
        last_physical_max: 0,
        last_unit_exponent: 0,
        last_unit: 0,
        inhibit_write_of_usage: false,
        report_count: 0,
    };
    let mut at: usize = 0;
    while at < main_item_list.len()
        invariant
            at <= main_item_list.len(),
            spec_encode_descriptor(main_item_list@, caps_list@, link_collection_nodes@)
                == spec_encode_from(
                main_item_list@,
                caps_list@,
                link_collection_nodes@,
                at as int,
                writer@,
                state,
            ),
        decreases main_item_list.len() - at,
    {
        let next = if at + 1 < main_item_list.len() {
            Some(main_item_list[at + 1])
        } else {
            None
        };
        match encode_item(
            &mut writer,
            state,
            &main_item_list[at],
            next,
            caps_list,
            link_collection_nodes,
        ) {
            None => {
                return Err(WinError::InvalidPreparsedData);
            },
            Some(after) => {
                state = after;
            },
        }
        at = at + 1;
    }
    Ok(writer.finish())
}

} // verus!

//! The bits that each collection occupies in each report.
//!
//! A collection occupies, in the report with a given id and type, the bits
//! from the first bit of its first field to the last bit of its last field.
//! The table is first filled from the capabilities that belong to each
//! collection themselves, and then every collection is given the bits of the
//! collections inside it.

use std::collections::HashMap;
use vstd::prelude::*;
use crate::windows_native::descriptor::typedefs::{Caps, CapsInfo, HidpPreparsedData, LinkCollectionNode};
use crate::windows_native::descriptor::types::{BitRange, ReportType};

verus! {

broadcast use vstd::std_specs::hash::group_hash_axioms;

/// The largest number of link collection nodes: their count is a 16-bit
/// number in the preparsed data, and nodes name each other by 16-bit
/// indices.
pub const MAX_COLLECTIONS: usize = 0x1_0000;

/// The number of keys of a collection in the table: 256 report ids times
/// three report types.
pub const KEYS_PER_COLLECTION: usize = 768;

/// The report type with the given index; input for an index out of range.
pub open spec fn spec_report_type_of(index: int) -> ReportType {
    if index == 1 {
        ReportType::Output
    } else if index == 2 {
        ReportType::Feature
    } else {
        ReportType::Input
    }
}

/// The report type with the given index; input for an index out of range.
pub fn report_type_of(index: usize) -> (report_type: ReportType)
    ensures
        report_type == spec_report_type_of(index as int),
{
    if index == 1 {
        ReportType::Output
    } else if index == 2 {
        ReportType::Feature
    } else {
        ReportType::Input
    }
}

/// The key under which the table holds the bits of a collection in the
/// report with the given id and type.
pub open spec fn spec_range_key(collection: int, report_id: int, report_type: ReportType) -> u64 {
    ((collection * 256 + report_id) * 3 + report_type.spec_index()) as u64
}

/// The bits of a collection in a report, if the table holds any.
pub open spec fn spec_lookup(
    ranges: Map<u64, BitRange>,
    collection: int,
    report_id: int,
    report_type: ReportType,
) -> Option<BitRange> {
    let key = spec_range_key(collection, report_id, report_type);
    if ranges.contains_key(key) {
        Some(ranges[key])
    } else {
        None
    }
}

/// The table after `range` was added to the bits of a collection in a
/// report: the smallest range that covers what was there and `range`.
pub open spec fn spec_merge_into(
    ranges: Map<u64, BitRange>,
    collection: int,
    report_id: int,
    report_type: ReportType,
    range: BitRange,
) -> Map<u64, BitRange> {
    let key = spec_range_key(collection, report_id, report_type);
    if ranges.contains_key(key) {
        ranges.insert(key, ranges[key].spec_merge(range))
    } else {
        ranges.insert(key, range)
    }
}

/// The bits that each collection occupies in each report.
pub struct BitRangeTable {
    pub map: HashMap<u64, BitRange>,
}

impl View for BitRangeTable {
    type V = Map<u64, BitRange>;

    open spec fn view(&self) -> Map<u64, BitRange> {
        self.map@
    }
}

impl BitRangeTable {
    /// A table without entries.
    pub fn new() -> (table: BitRangeTable)
        ensures
            table@ == Map::<u64, BitRange>::empty(),
    {
        BitRangeTable { map: HashMap::new() }
    }

    fn key(collection: usize, report_id: u8, report_type: ReportType) -> (key: u64)
        requires
            collection < MAX_COLLECTIONS,
        ensures
            key == spec_range_key(collection as int, report_id as int, report_type),
    {
        (collection as u64 * 256 + report_id as u64) * 3 + report_type.index() as u64
    }

    /// The bits of a collection in the report with the given id and type.
    pub fn get(&self, collection: usize, report_id: u8, report_type: ReportType) -> (range: Option<
        BitRange,
    >)
        requires
            collection < MAX_COLLECTIONS,
        ensures
            range == spec_lookup(self@, collection as int, report_id as int, report_type),
    {
        let key = Self::key(collection, report_id, report_type);
        match self.map.get(&key) {
            Some(range) => Some(*range),
            None => None,
        }
    }

    /// Adds `range` to the bits of a collection in a report.
    pub fn merge_into(
        &mut self,
        collection: usize,
        report_id: u8,
        report_type: ReportType,
        range: BitRange,
    )
        requires
            collection < MAX_COLLECTIONS,
        ensures
            final(self)@ == spec_merge_into(
                old(self)@,
                collection as int,
                report_id as int,
                report_type,
                range,
            ),
    {
        let key = Self::key(collection, report_id, report_type);
        let merged = match self.map.get(&key) {
            Some(present) => present.merge(range),
            None => range,
        };
        self.map.insert(key, merged);
    }
}

/// The table `ranges` after the capabilities from position `at` up to `end`
/// were added, each to the collection it belongs to, in the report with its
/// id and the type `report_type`. There is no result where the array is
/// shorter than `end` or a capability does not lie at 16-bit bit positions.
pub open spec fn spec_record_caps_from(
    caps_list: Seq<Caps>,
    report_type: ReportType,
    at: int,
    end: int,
    ranges: Map<u64, BitRange>,
) -> Option<Map<u64, BitRange>>
    decreases end - at,
{
    if at >= end {
        Some(ranges)
    } else if at < 0 || at >= caps_list.len() || !caps_list[at].has_bit_range() {
        None
    } else {
        let caps = caps_list[at];
        spec_record_caps_from(
            caps_list,
            report_type,
            at + 1,
            end,
            spec_merge_into(
                ranges,
                caps.link_collection as int,
                caps.report_id as int,
                report_type,
                caps.spec_bit_range(),
            ),
        )
    }
}

/// The table `ranges` after the capabilities of a report type were added.
pub open spec fn spec_record_caps(
    caps_list: Seq<Caps>,
    report_type: ReportType,
    info: CapsInfo,
    ranges: Map<u64, BitRange>,
) -> Option<Map<u64, BitRange>> {
    spec_record_caps_from(caps_list, report_type, info.first_cap as int, info.last_cap as int, ranges)
}

/// The bits that each collection occupies in each report by the
/// capabilities that belong to it directly: for each report type, the
/// capabilities from `first_cap` up to `last_cap` of that type.
pub open spec fn spec_direct_ranges(header: HidpPreparsedData, caps_list: Seq<Caps>) -> Option<
    Map<u64, BitRange>,
> {
    match spec_record_caps(caps_list, ReportType::Input, header.caps_info.0, Map::empty()) {
        None => None,
        Some(ranges) => match spec_record_caps(
            caps_list,
            ReportType::Output,
            header.caps_info.1,
            ranges,
        ) {
            None => None,
            Some(ranges) => spec_record_caps(
                caps_list,
                ReportType::Feature,
                header.caps_info.2,
                ranges,
            ),
        },
    }
}

fn record_caps(
    table: &mut BitRangeTable,
    caps_list: &[Caps],
    report_type: ReportType,
    info: CapsInfo,
) -> (ok: bool)
    ensures
        match spec_record_caps(caps_list@, report_type, info, old(table)@) {
            Some(ranges) => ok && final(table)@ == ranges,
            None => !ok,
        },
{
    let mut at: usize = info.first_cap as usize;
    let end: usize = info.last_cap as usize;
    while at < end
        invariant
            end == info.last_cap,
            spec_record_caps(caps_list@, report_type, info, old(table)@) == spec_record_caps_from(
                caps_list@,
                report_type,
                at as int,
                end as int,
                table@,
            ),
        decreases end - at,
    {
        if at >= caps_list.len() {
            return false;
        }
        let caps = &caps_list[at];
        if !caps.check_bit_range() {
            return false;
        }
        let range = caps.get_bit_range();
        table.merge_into(caps.link_collection as usize, caps.report_id, report_type, range);
        at = at + 1;
    }
    true
}

/// Fills a table from the capabilities: see [`spec_direct_ranges`].
pub fn direct_ranges(header: &HidpPreparsedData, caps_list: &[Caps]) -> (result: Option<
    BitRangeTable,
>)
    ensures
        match spec_direct_ranges(*header, caps_list@) {
            Some(ranges) => result is Some && result->0@ == ranges,
            None => result is None,
        },
{
    let mut table = BitRangeTable::new();
    if !record_caps(&mut table, caps_list, ReportType::Input, header.caps_info.0) {
        return None;
    }
    if !record_caps(&mut table, caps_list, ReportType::Output, header.caps_info.1) {
        return None;
    }
    if !record_caps(&mut table, caps_list, ReportType::Feature, header.caps_info.2) {
        return None;
    }
    Some(table)
}

/// The table `ranges` after the bits of the collection `child` were added
/// to those of the collection `parent`, for the keys from `key` on. The
/// keys count the report ids, and for each of them the three report types.
pub open spec fn spec_merge_child_keys(
    ranges: Map<u64, BitRange>,
    parent: int,
    child: int,
    key: int,
) -> Map<u64, BitRange>
    decreases KEYS_PER_COLLECTION - key,
{
    if key < 0 || key >= KEYS_PER_COLLECTION {
        ranges
    } else {
        let report_id = key / 3;
        let report_type = spec_report_type_of(key % 3);
        let ranges = match spec_lookup(ranges, child, report_id, report_type) {
            Some(range) => spec_merge_into(ranges, parent, report_id, report_type, range),
            None => ranges,
        };
        spec_merge_child_keys(ranges, parent, child, key + 1)
    }
}

/// The table `ranges` after the bits of `child` and of the siblings after
/// it in the tree were added to those of `parent`. There is no result where
/// a sibling is not in the array, or where more than `fuel` siblings follow
/// each other.
pub open spec fn spec_merge_children(
    nodes: Seq<LinkCollectionNode>,
    ranges: Map<u64, BitRange>,
    parent: int,
    child: int,
    fuel: nat,
) -> Option<Map<u64, BitRange>>
    decreases fuel,
{
    if child == 0 {
        Some(ranges)
    } else if fuel == 0 || child < 0 || child >= nodes.len() {
        None
    } else {
        spec_merge_children(
            nodes,
            spec_merge_child_keys(ranges, parent, child, 0),
            parent,
            nodes[child].next_sibling as int,
            (fuel - 1) as nat,
        )
    }
}

/// The table `ranges` after each collection from position `at` on that
/// stands at the depth `level` was given the bits of its children.
pub open spec fn spec_propagate_level(
    nodes: Seq<LinkCollectionNode>,
    levels: Seq<i32>,
    ranges: Map<u64, BitRange>,
    level: int,
    at: int,
) -> Option<Map<u64, BitRange>>
    decreases nodes.len() - at,
{
    if at < 0 || at >= nodes.len() {
        Some(ranges)
    } else if levels[at] == level {
        match spec_merge_children(nodes, ranges, at, nodes[at].first_child as int, nodes.len()) {
            None => None,
            Some(ranges) => spec_propagate_level(nodes, levels, ranges, level, at + 1),
        }
    } else {
        spec_propagate_level(nodes, levels, ranges, level, at + 1)
    }
}

/// The table `ranges` after the collections at the depths below `level`
/// were given the bits of their children, the deepest of them first. After
/// it, a collection holds the bits of all collections inside it.
pub open spec fn spec_propagate(
    nodes: Seq<LinkCollectionNode>,
    levels: Seq<i32>,
    ranges: Map<u64, BitRange>,
    level: int,
) -> Option<Map<u64, BitRange>>
    decreases level,
{
    if level <= 0 {
        Some(ranges)
    } else {
        match spec_propagate_level(nodes, levels, ranges, level - 1, 0) {
            None => None,
            Some(ranges) => spec_propagate(nodes, levels, ranges, level - 1),
        }
    }
}

fn merge_child_keys(table: &mut BitRangeTable, parent: usize, child: usize)
    requires
        parent < MAX_COLLECTIONS,
        child < MAX_COLLECTIONS,
    ensures
        final(table)@ == spec_merge_child_keys(old(table)@, parent as int, child as int, 0),
{
    let mut key: usize = 0;
    while key < KEYS_PER_COLLECTION
        invariant
            parent < MAX_COLLECTIONS,
            child < MAX_COLLECTIONS,
            spec_merge_child_keys(old(table)@, parent as int, child as int, 0)
                == spec_merge_child_keys(table@, parent as int, child as int, key as int),
        decreases KEYS_PER_COLLECTION - key,
    {
        let report_id: u8 = (key / 3) as u8;
        let report_type = report_type_of(key % 3);
        match table.get(child, report_id, report_type) {
            Some(range) => {
                table.merge_into(parent, report_id, report_type, range);
            },
            None => {},
        }
        key = key + 1;
    }
}

fn merge_children(
    table: &mut BitRangeTable,
    nodes: &[LinkCollectionNode],
    parent: usize,
    first_child: usize,
) -> (ok: bool)
    requires
        parent < nodes.len() <= MAX_COLLECTIONS,
    ensures
        match spec_merge_children(
            nodes@,
            old(table)@,
            parent as int,
            first_child as int,
            nodes@.len(),
        ) {
            Some(ranges) => ok && final(table)@ == ranges,
            None => !ok,
        },
{
    let mut child: usize = first_child;
    let mut fuel: usize = nodes.len();
    while child != 0
        invariant
            parent < nodes.len() <= MAX_COLLECTIONS,
            spec_merge_children(
                nodes@,
                old(table)@,
                parent as int,
                first_child as int,
                nodes@.len(),
            ) == spec_merge_children(nodes@, table@, parent as int, child as int, fuel as nat),
        decreases fuel,
    {
        if fuel == 0 || child >= nodes.len() {
            return false;
        }
        merge_child_keys(table, parent, child);
        child = nodes[child].next_sibling as usize;
        fuel = fuel - 1;
    }
    true
}

fn propagate_level(
    table: &mut BitRangeTable,
    nodes: &[LinkCollectionNode],
    levels: &Vec<i32>,
    level: i32,
) -> (ok: bool)
    requires
        nodes.len() <= MAX_COLLECTIONS,
        levels@.len() == nodes@.len(),
    ensures
        match spec_propagate_level(nodes@, levels@, old(table)@, level as int, 0) {
            Some(ranges) => ok && final(table)@ == ranges,
            None => !ok,
        },
{
    let mut at: usize = 0;
    while at < nodes.len()
        invariant
            nodes.len() <= MAX_COLLECTIONS,
            levels@.len() == nodes@.len(),
            spec_propagate_level(nodes@, levels@, old(table)@, level as int, 0)
                == spec_propagate_level(nodes@, levels@, table@, level as int, at as int),
        decreases nodes.len() - at,
    {
        if levels[at] == level {
            if !merge_children(table, nodes, at, nodes[at].first_child as usize) {
                return false;
            }
        }
        at = at + 1;
    }
    true
}

/// Gives every collection at a depth below `max_level` the bits of its
/// children, the deepest first: see [`spec_propagate`].
pub fn propagate(
    table: &mut BitRangeTable,
    nodes: &[LinkCollectionNode],
    levels: &Vec<i32>,
    max_level: i32,
) -> (ok: bool)
    requires
        nodes.len() <= MAX_COLLECTIONS,
        levels@.len() == nodes@.len(),
    ensures
        match spec_propagate(nodes@, levels@, old(table)@, max_level as int) {
            Some(ranges) => ok && final(table)@ == ranges,
            None => !ok,
        },
{
    let mut level: i32 = max_level;
    while level > 0
        invariant
            nodes.len() <= MAX_COLLECTIONS,
            levels@.len() == nodes@.len(),
            spec_propagate(nodes@, levels@, old(table)@, max_level as int) == spec_propagate(
                nodes@,
                levels@,
                table@,
                level as int,
            ),
        decreases level,
    {
        if !propagate_level(table, nodes, levels, level - 1) {
            return false;
        }
        level = level - 1;
    }
    true
}

} // verus!

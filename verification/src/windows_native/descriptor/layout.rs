//! The main item list: the collections of the tree in the order of the
//! descriptor, the fields of the reports between them, and the padding that
//! fills the gaps between the fields.

use vstd::prelude::*;
use crate::windows_native::descriptor::ranges::{
    spec_lookup,
    spec_report_type_of,
    report_type_of,
    BitRangeTable,
    KEYS_PER_COLLECTION,
    MAX_COLLECTIONS,
};
use crate::windows_native::descriptor::tree::{spec_all_below, spec_lists, spec_walk_fuel};
use crate::windows_native::descriptor::typedefs::{Caps, CapsInfo, HidpPreparsedData, LinkCollectionNode};
use crate::windows_native::descriptor::types::{
    BitRange,
    ItemNodeType,
    MainItemNode,
    MainItems,
    ReportType,
};

verus! {

/// Stands in the table of the children written last for "none yet".
pub const NO_CHILD: usize = usize::MAX;

/// The node that a collection puts into the list.
pub open spec fn spec_collection_node(collection: int, kind: MainItems) -> MainItemNode {
    MainItemNode {
        first_bit: 0,
        last_bit: 0,
        node_type: ItemNodeType::Collection,
        caps_index: 0,
        collection_index: collection as usize,
        main_item_type: kind,
        report_id: 0,
    }
}

fn collection_node(collection: usize, kind: MainItems) -> (node: MainItemNode)
    ensures
        node == spec_collection_node(collection as int, kind),
{
    MainItemNode::new(0, 0, ItemNodeType::Collection, 0, collection, kind, 0)
}

/// The first position from `from` on at which `order` holds `child`.
pub open spec fn spec_position_in(order: Seq<usize>, child: usize, from: int) -> Option<int>
    decreases order.len() - from,
{
    if from < 0 || from >= order.len() {
        None
    } else if order[from] == child {
        Some(from)
    } else {
        spec_position_in(order, child, from + 1)
    }
}

fn position_in(order: &Vec<usize>, child: usize) -> (found: Option<usize>)
    ensures
        match spec_position_in(order@, child, 0) {
            Some(at) => found is Some && found->0 == at && at < order@.len(),
            None => found is None,
        },
{
    let mut at: usize = 0;
    while at < order.len()
        invariant
            spec_position_in(order@, child, 0) == spec_position_in(order@, child, at as int),
        decreases order.len() - at,
    {
        if order[at] == child {
            return Some(at);
        }
        at = at + 1;
    }
    None
}

/// The writing of the collections into the list, between two steps.
pub struct CollectionWalk {
    pub list: Seq<MainItemNode>,
    /// For each collection the child that was written last, or
    /// [`NO_CHILD`].
    pub last_written: Seq<usize>,
    /// The depth at which the walk stands; -1 once the root is closed.
    pub level: i32,
    /// The collection at which the walk stands.
    pub at: int,
    /// Whether a set of aliased collections is being written.
    pub in_alias_set: bool,
}

/// One step of the writing of the collections.
///
/// Where the collection at which the walk stands has children and none was
/// written, its first child is written; where it has more children than
/// were written, the child after the one written last; else the collection
/// is closed and the walk goes back to its parent. A child is written as a
/// collection that the walk then enters. A child that is an alias opens a
/// set of aliased usages in place of that: the first of a set is written as
/// a usage and the end of the set, each further one as a usage at the second
/// place of the list, and the collection that the aliases stand for as a
/// usage and the start of the set at the second place, before it is written
/// as a collection itself.
pub open spec fn spec_collection_step(
    nodes: Seq<LinkCollectionNode>,
    orders: Seq<Seq<usize>>,
    walk: CollectionWalk,
) -> Option<CollectionWalk> {
    if !(0 <= walk.at < nodes.len()) {
        None
    } else {
        let order = orders[walk.at];
        let count = order.len();
        let last = walk.last_written[walk.at];
        if count != 0 && last == NO_CHILD {
            let child = order[0];
            let last_written = walk.last_written.update(walk.at, child);
            if nodes[child as int].spec_is_alias() && !walk.in_alias_set {
                Some(
                    CollectionWalk {
                        list: walk.list.push(
                            spec_collection_node(child as int, MainItems::DelimiterUsage),
                        ).push(spec_collection_node(child as int, MainItems::DelimiterClose)),
                        last_written,
                        at: child as int,
                        in_alias_set: true,
                        ..walk
                    },
                )
            } else if walk.level == i32::MAX {
                None
            } else {
                Some(
                    CollectionWalk {
                        list: walk.list.push(
                            spec_collection_node(child as int, MainItems::Collection),
                        ),
                        last_written,
                        level: (walk.level + 1) as i32,
                        at: child as int,
                        ..walk
                    },
                )
            }
        } else if count > 1 && last != order[count - 1] {
            match spec_position_in(order, last, 0) {
                None => None,
                Some(found) => if found + 1 >= count {
                    None
                } else {
                    let child = order[found + 1];
                    let last_written = walk.last_written.update(walk.at, child);
                    let alias = nodes[child as int].spec_is_alias();
                    let usage = spec_collection_node(child as int, MainItems::DelimiterUsage);
                    let (list, in_alias_set) = if alias && !walk.in_alias_set {
                        (
                            walk.list.push(usage).push(
                                spec_collection_node(child as int, MainItems::DelimiterClose),
                            ),
                            true,
                        )
                    } else if alias {
                        (walk.list.insert(1, usage), true)
                    } else if walk.in_alias_set {
                        (
                            walk.list.insert(1, usage).insert(
                                1,
                                spec_collection_node(child as int, MainItems::DelimiterOpen),
                            ),
                            false,
                        )
                    } else {
                        (walk.list, false)
                    };
                    if alias {
                        Some(
                            CollectionWalk {
                                list,
                                last_written,
                                at: child as int,
                                in_alias_set,
                                ..walk
                            },
                        )
                    } else if walk.level == i32::MAX {
                        None
                    } else {
                        Some(
                            CollectionWalk {
                                list: list.push(
                                    spec_collection_node(child as int, MainItems::Collection),
                                ),
                                last_written,
                                level: (walk.level + 1) as i32,
                                at: child as int,
                                in_alias_set,
                            },
                        )
                    }
                },
            }
        } else {
            Some(
                CollectionWalk {
                    list: walk.list.push(spec_collection_node(walk.at, MainItems::CollectionEnd)),
                    level: (walk.level - 1) as i32,
                    at: nodes[walk.at].parent as int,
                    ..walk
                },
            )
        }
    }
}

/// The walk after the root was closed, if that happens within `fuel` steps.
pub open spec fn spec_collection_walk(
    nodes: Seq<LinkCollectionNode>,
    orders: Seq<Seq<usize>>,
    walk: CollectionWalk,
    fuel: nat,
) -> Option<CollectionWalk>
    decreases fuel,
{
    if walk.level < 0 {
        Some(walk)
    } else if fuel == 0 {
        None
    } else {
        match spec_collection_step(nodes, orders, walk) {
            None => None,
            Some(after) => spec_collection_walk(nodes, orders, after, (fuel - 1) as nat),
        }
    }
}

/// The list of the collections: the root, then for each collection its
/// children in their order, each followed by what is inside it, and then
/// the end of the collection.
pub open spec fn spec_collection_items(
    nodes: Seq<LinkCollectionNode>,
    orders: Seq<Seq<usize>>,
) -> Option<Seq<MainItemNode>> {
    match spec_collection_walk(
        nodes,
        orders,
        CollectionWalk {
            list: seq![spec_collection_node(0, MainItems::Collection)],
            last_written: Seq::new(nodes.len(), |i: int| NO_CHILD),
            level: 0,
            at: 0,
            in_alias_set: false,
        },
        spec_walk_fuel(nodes.len()),
    ) {
        None => None,
        Some(walk) => Some(walk.list),
    }
}

/// Writes the collections into a new list: see [`spec_collection_step`].
pub fn collection_items(nodes: &[LinkCollectionNode], lists: &Vec<Vec<usize>>) -> (result: Option<
    Vec<MainItemNode>,
>)
    requires
        nodes.len() <= MAX_COLLECTIONS,
        lists@.len() == nodes@.len(),
        spec_all_below(spec_lists(lists@), nodes@.len() as int),
    ensures
        match spec_collection_items(nodes@, spec_lists(lists@)) {
            Some(list) => result is Some && result->0@ == list,
            None => result is None,
        },
{
    let len = nodes.len();
    let mut list: Vec<MainItemNode> = Vec::new();
    list.push(collection_node(0, MainItems::Collection));
    let mut last_written: Vec<usize> = Vec::new();
    let mut filled: usize = 0;
    while filled < len
        invariant
            filled <= len,
            last_written@ =~= Seq::new(filled as nat, |i: int| NO_CHILD),
        decreases len - filled,
    {
        last_written.push(NO_CHILD);
        filled = filled + 1;
    }
    let mut level: i32 = 0;
    let mut at: usize = 0;
    let mut in_alias_set = false;
    let mut fuel: usize = 3 * len + 3;
    assert(list@ =~= seq![spec_collection_node(0, MainItems::Collection)]);
    while level >= 0
        invariant
            len == nodes.len(),
            lists@.len() == len,
            spec_all_below(spec_lists(lists@), len as int),
            last_written@.len() == len,
            list@.len() >= 1,
            spec_collection_items(nodes@, spec_lists(lists@)) == (match spec_collection_walk(
                nodes@,
                spec_lists(lists@),
                CollectionWalk {
                    list: list@,
                    last_written: last_written@,
                    level,
                    at: at as int,
                    in_alias_set,
                },
                fuel as nat,
            ) {
                None => None,
                Some(walk) => Some(walk.list),
            }),
        decreases fuel,
    {
        if fuel == 0 || at >= len {
            return None;
        }
        fuel = fuel - 1;
        let order = &lists[at];
        assert(spec_lists(lists@)[at as int] == order@);
        let count = order.len();
        let last = last_written[at];
        if count != 0 && last == NO_CHILD {
            let child = order[0];
            assert(spec_lists(lists@)[at as int][0] < len);
            last_written.set(at, child);
            if nodes[child].is_alias() && !in_alias_set {
                in_alias_set = true;
                list.push(collection_node(child, MainItems::DelimiterUsage));
                list.push(collection_node(child, MainItems::DelimiterClose));
            } else {
                if level == i32::MAX {
                    return None;
                }
                list.push(collection_node(child, MainItems::Collection));
                level = level + 1;
            }
            at = child;
        } else if count > 1 && last != order[count - 1] {
            let found = match position_in(order, last) {
                None => { return None; },
                Some(found) => found,
            };
            if found + 1 >= count {
                return None;
            }
            let child = order[found + 1];
            assert(spec_lists(lists@)[at as int][found + 1] < len);
            last_written.set(at, child);
            let alias = nodes[child].is_alias();
            if alias && !in_alias_set {
                in_alias_set = true;
                list.push(collection_node(child, MainItems::DelimiterUsage));
                list.push(collection_node(child, MainItems::DelimiterClose));
            } else if alias {
                list.insert(1, collection_node(child, MainItems::DelimiterUsage));
            } else if in_alias_set {
                list.insert(1, collection_node(child, MainItems::DelimiterUsage));
                list.insert(1, collection_node(child, MainItems::DelimiterOpen));
                in_alias_set = false;
            }
            if !alias {
                if level == i32::MAX {
                    return None;
                }
                list.push(collection_node(child, MainItems::Collection));
                level = level + 1;
            }
            at = child;
        } else {
            level = level - 1;
            list.push(collection_node(at, MainItems::CollectionEnd));
            at = nodes[at].parent as usize;
        }
    }
    Some(list)
}

/// The first position from `from` on of a node of the collection.
pub open spec fn spec_first_of_collection(list: Seq<MainItemNode>, collection: usize, from: int) -> Option<
    int,
>
    decreases list.len() - from,
{
    if from < 0 || from >= list.len() {
        None
    } else if list[from].collection_index == collection {
        Some(from)
    } else {
        spec_first_of_collection(list, collection, from + 1)
    }
}

/// The last position below `below` of a node of the collection.
pub open spec fn spec_last_of_collection(list: Seq<MainItemNode>, collection: usize, below: int) -> Option<
    int,
>
    decreases below,
{
    if below <= 0 || below > list.len() {
        None
    } else if list[below - 1].collection_index == collection {
        Some(below - 1)
    } else {
        spec_last_of_collection(list, collection, below - 1)
    }
}

fn first_of_collection(list: &Vec<MainItemNode>, collection: usize) -> (found: Option<usize>)
    ensures
        match spec_first_of_collection(list@, collection, 0) {
            Some(at) => found is Some && found->0 == at && at < list@.len(),
            None => found is None,
        },
{
    let mut at: usize = 0;
    while at < list.len()
        invariant
            spec_first_of_collection(list@, collection, 0) == spec_first_of_collection(
                list@,
                collection,
                at as int,
            ),
        decreases list.len() - at,
    {
        if list[at].collection_index == collection {
            return Some(at);
        }
        at = at + 1;
    }
    None
}

fn last_of_collection(list: &Vec<MainItemNode>, collection: usize) -> (found: Option<usize>)
    ensures
        match spec_last_of_collection(list@, collection, list@.len() as int) {
            Some(at) => found is Some && found->0 == at && at < list@.len(),
            None => found is None,
        },
{
    let mut below: usize = list.len();
    while below > 0
        invariant
            below <= list.len(),
            spec_last_of_collection(list@, collection, list@.len() as int)
                == spec_last_of_collection(list@, collection, below as int),
        decreases below,
    {
        if list[below - 1].collection_index == collection {
            return Some(below - 1);
        }
        below = below - 1;
    }
    None
}

/// Whether a search for the bit `search_bit` of a report stops before
/// `node`: at the start or the end of a collection, and at a field of the
/// same report that ends at or after the bit.
pub open spec fn spec_search_stops(
    node: MainItemNode,
    search_bit: int,
    main_item_type: MainItems,
    report_id: u8,
) -> bool {
    ||| node.main_item_type == MainItems::Collection
    ||| node.main_item_type == MainItems::CollectionEnd
    ||| (node.last_bit >= search_bit && node.report_id == report_id && node.main_item_type
        == main_item_type)
}

/// The first position from `at` on whose next node stops the search.
pub open spec fn spec_search_from(
    list: Seq<MainItemNode>,
    search_bit: int,
    main_item_type: MainItems,
    report_id: u8,
    at: int,
) -> Option<int>
    decreases list.len() - at,
{
    if at < 0 || at + 1 >= list.len() {
        None
    } else if spec_search_stops(list[at + 1], search_bit, main_item_type, report_id) {
        Some(at)
    } else {
        spec_search_from(list, search_bit, main_item_type, report_id, at + 1)
    }
}

/// Finds the node of the list after which a field that starts at
/// `search_bit` belongs: the first position from `start` on whose next node
/// is the start or the end of a collection, or a field of the same report
/// type and id that ends at or after `search_bit`. There is none where no
/// such node follows.
pub fn search_list(
    search_bit: i32,
    main_item_type: MainItems,
    report_id: u8,
    start: usize,
    list: &[MainItemNode],
) -> (found: Option<usize>)
    ensures
        match spec_search_from(list@, search_bit as int, main_item_type, report_id, start as int) {
            Some(at) => found is Some && found->0 == at && start <= at && at + 1 < list@.len(),
            None => found is None,
        },
{
    let mut at: usize = start;
    while at < list.len() && at + 1 < list.len()
        invariant
            start <= at,
            spec_search_from(list@, search_bit as int, main_item_type, report_id, start as int)
                == spec_search_from(list@, search_bit as int, main_item_type, report_id, at as int),
        decreases list.len() - at,
    {
        let next = &list[at + 1];
        if next.main_item_type == MainItems::Collection || next.main_item_type
            == MainItems::CollectionEnd || (next.last_bit as i32 >= search_bit && next.report_id
            == report_id && next.main_item_type == main_item_type) {
            return Some(at);
        }
        at = at + 1;
    }
    None
}

/// The node after which the search for the place of a field starts, seen
/// from the children from position `child` on of the collection of the
/// field: `anchor`, moved to the last node of each child that does not
/// start after the field in the report of the field. A child without bits
/// in that report counts as one that starts at bit 0.
pub open spec fn spec_cap_anchor_from(
    list: Seq<MainItemNode>,
    order: Seq<usize>,
    ranges: Map<u64, BitRange>,
    report_id: int,
    report_type: ReportType,
    first_bit: int,
    child: int,
    anchor: int,
) -> Option<int>
    decreases order.len() - child,
{
    if child < 0 || child >= order.len() {
        Some(anchor)
    } else {
        let child_first_bit: int = match spec_lookup(
            ranges,
            order[child] as int,
            report_id,
            report_type,
        ) {
            Some(range) => range.first_bit as int,
            None => 0,
        };
        if first_bit < child_first_bit {
            Some(anchor)
        } else {
            match spec_last_of_collection(list, order[child], list.len() as int) {
                None => None,
                Some(last) => spec_cap_anchor_from(
                    list,
                    order,
                    ranges,
                    report_id,
                    report_type,
                    first_bit,
                    child + 1,
                    last,
                ),
            }
        }
    }
}

fn cap_anchor(
    list: &Vec<MainItemNode>,
    order: &Vec<usize>,
    table: &BitRangeTable,
    report_id: u8,
    report_type: ReportType,
    first_bit: u16,
    start: usize,
) -> (found: Option<usize>)
    requires
        forall|i: int| 0 <= i < order@.len() ==> (#[trigger] order@[i]) < MAX_COLLECTIONS,
    ensures
        match spec_cap_anchor_from(
            list@,
            order@,
            table@,
            report_id as int,
            report_type,
            first_bit as int,
            0,
            start as int,
        ) {
            Some(at) => found is Some && found->0 == at,
            None => found is None,
        },
{
    let mut anchor: usize = start;
    let mut child: usize = 0;
    while child < order.len()
        invariant
            forall|i: int| 0 <= i < order@.len() ==> (#[trigger] order@[i]) < MAX_COLLECTIONS,
            spec_cap_anchor_from(
                list@,
                order@,
                table@,
                report_id as int,
                report_type,
                first_bit as int,
                0,
                start as int,
            ) == spec_cap_anchor_from(
                list@,
                order@,
                table@,
                report_id as int,
                report_type,
                first_bit as int,
                child as int,
                anchor as int,
            ),
        decreases order.len() - child,
    {
        let child_first_bit: u16 = match table.get(order[child], report_id, report_type) {
            Some(range) => range.first_bit,
            None => 0,
        };
        if first_bit < child_first_bit {
            return Some(anchor);
        }
        match last_of_collection(list, order[child]) {
            None => {
                return None;
            },
            Some(last) => {
                anchor = last;
            },
        }
        child = child + 1;
    }
    Some(anchor)
}

/// The node that a capability puts into the list.
pub open spec fn spec_cap_node(caps_index: int, caps: Caps, kind: MainItems) -> MainItemNode {
    MainItemNode {
        first_bit: caps.spec_bit_range().first_bit,
        last_bit: caps.spec_bit_range().last_bit,
        node_type: ItemNodeType::Cap,
        caps_index: caps_index as i32,
        collection_index: caps.link_collection as usize,
        main_item_type: kind,
        report_id: caps.report_id,
    }
}

/// The list after the capability `caps` was put into it, and whether a set
/// of aliased usages is being written after it.
///
/// The field goes behind the node that [`spec_search_from`] finds for its
/// first bit, searched from the first node of its collection or from the
/// last node of the last child that does not start after it. A capability
/// that is an alias is written as a usage of a set of aliased usages, the
/// first of a set with the end of the set behind it; the capability that the
/// aliases stand for is written as the field, with its usage and the start
/// of the set before it where a set is being written. There is no result
/// where the collection of the capability is not in the list, where the
/// capability does not lie at 16-bit bit positions, or where the search
/// finds no node.
pub open spec fn spec_insert_cap(
    list: Seq<MainItemNode>,
    in_alias_set: bool,
    caps_index: int,
    caps: Caps,
    report_type: ReportType,
    orders: Seq<Seq<usize>>,
    ranges: Map<u64, BitRange>,
) -> Option<(Seq<MainItemNode>, bool)> {
    if caps.link_collection >= orders.len() || !caps.has_bit_range() {
        None
    } else {
        match spec_first_of_collection(list, caps.link_collection as usize, 0) {
            None => None,
            Some(begin) => match spec_cap_anchor_from(
                list,
                orders[caps.link_collection as int],
                ranges,
                caps.report_id as int,
                report_type,
                caps.spec_first_bit(),
                0,
                begin,
            ) {
                None => None,
                Some(anchor) => match spec_search_from(
                    list,
                    caps.spec_first_bit(),
                    MainItems::spec_from_report_type(report_type),
                    caps.report_id,
                    anchor,
                ) {
                    None => None,
                    Some(found) => {
                        let place = found + 1;
                        let usage = spec_cap_node(caps_index, caps, MainItems::DelimiterUsage);
                        if caps.spec_is_alias() && !in_alias_set {
                            Some(
                                (
                                    list.insert(place, usage).insert(
                                        place,
                                        spec_cap_node(caps_index, caps, MainItems::DelimiterClose),
                                    ),
                                    true,
                                ),
                            )
                        } else if caps.spec_is_alias() {
                            Some((list.insert(place, usage), true))
                        } else {
                            let list = if in_alias_set {
                                list.insert(place, usage).insert(
                                    place,
                                    spec_cap_node(caps_index, caps, MainItems::DelimiterOpen),
                                )
                            } else {
                                list
                            };
                            Some(
                                (
                                    list.insert(
                                        place,
                                        spec_cap_node(
                                            caps_index,
                                            caps,
                                            MainItems::spec_from_report_type(report_type),
                                        ),
                                    ),
                                    false,
                                ),
                            )
                        }
                    },
                },
            },
        }
    }
}

fn cap_node(caps_index: usize, caps: &Caps, kind: MainItems) -> (node: MainItemNode)
    requires
        caps.has_bit_range(),
        caps_index <= u16::MAX,
    ensures
        node == spec_cap_node(caps_index as int, *caps, kind),
{
    let range = caps.get_bit_range();
    MainItemNode::new(
        range.first_bit,
        range.last_bit,
        ItemNodeType::Cap,
        caps_index as i32,
        caps.link_collection as usize,
        kind,
        caps.report_id,
    )
}

fn main_item_of(report_type: ReportType) -> (kind: MainItems)
    ensures
        kind == MainItems::spec_from_report_type(report_type),
{
    match report_type {
        ReportType::Input => MainItems::Input,
        ReportType::Output => MainItems::Output,
        ReportType::Feature => MainItems::Feature,
    }
}

fn insert_cap(
    list: &mut Vec<MainItemNode>,
    in_alias_set: bool,
    caps_index: usize,
    caps: &Caps,
    report_type: ReportType,
    lists: &Vec<Vec<usize>>,
    table: &BitRangeTable,
) -> (result: Option<bool>)
    requires
        caps_index <= u16::MAX,
        lists@.len() <= MAX_COLLECTIONS,
        spec_all_below(spec_lists(lists@), lists@.len() as int),
    ensures
        match spec_insert_cap(
            old(list)@,
            in_alias_set,
            caps_index as int,
            *caps,
            report_type,
            spec_lists(lists@),
            table@,
        ) {
            Some((after, in_set)) => final(list)@ == after && result == Some(in_set),
            None => result is None,
        },
{
    if caps.link_collection as usize >= lists.len() || !caps.check_bit_range() {
        return None;
    }
    let begin = match first_of_collection(list, caps.link_collection as usize) {
        None => { return None; },
        Some(begin) => begin,
    };
    let range = caps.get_bit_range();
    let order = &lists[caps.link_collection as usize];
    assert(spec_lists(lists@)[caps.link_collection as int] == order@);
    assert forall|i: int| 0 <= i < order@.len() implies (#[trigger] order@[i]) < MAX_COLLECTIONS by {
        assert(spec_lists(lists@)[caps.link_collection as int][i] < lists@.len());
    }
    let anchor = match cap_anchor(
        list,
        order,
        table,
        caps.report_id,
        report_type,
        range.first_bit,
        begin,
    ) {
        None => { return None; },
        Some(anchor) => anchor,
    };
    let kind = main_item_of(report_type);
    let found = match search_list(
        range.first_bit as i32,
        kind,
        caps.report_id,
        anchor,
        list.as_slice(),
    ) {
        None => { return None; },
        Some(found) => found,
    };
    assert(list@.len() == list.len());
    let place = found + 1;
    if caps.is_alias() && !in_alias_set {
        list.insert(place, cap_node(caps_index, caps, MainItems::DelimiterUsage));
        list.insert(place, cap_node(caps_index, caps, MainItems::DelimiterClose));
        Some(true)
    } else if caps.is_alias() {
        list.insert(place, cap_node(caps_index, caps, MainItems::DelimiterUsage));
        Some(true)
    } else {
        if in_alias_set {
            list.insert(place, cap_node(caps_index, caps, MainItems::DelimiterUsage));
            list.insert(place, cap_node(caps_index, caps, MainItems::DelimiterOpen));
        }
        list.insert(place, cap_node(caps_index, caps, kind));
        Some(false)
    }
}

/// The list after the capabilities from position `at` up to `end` were put
/// into it as fields of the report type `report_type`.
pub open spec fn spec_insert_caps_from(
    list: Seq<MainItemNode>,
    in_alias_set: bool,
    caps_list: Seq<Caps>,
    report_type: ReportType,
    at: int,
    end: int,
    orders: Seq<Seq<usize>>,
    ranges: Map<u64, BitRange>,
) -> Option<Seq<MainItemNode>>
    decreases end - at,
{
    if at >= end {
        Some(list)
    } else if at < 0 || at >= caps_list.len() {
        None
    } else {
        match spec_insert_cap(list, in_alias_set, at, caps_list[at], report_type, orders, ranges) {
            None => None,
            Some((list, in_alias_set)) => spec_insert_caps_from(
                list,
                in_alias_set,
                caps_list,
                report_type,
                at + 1,
                end,
                orders,
                ranges,
            ),
        }
    }
}

/// The list after the capabilities of one report type were put into it.
pub open spec fn spec_insert_caps(
    list: Seq<MainItemNode>,
    caps_list: Seq<Caps>,
    report_type: ReportType,
    info: CapsInfo,
    orders: Seq<Seq<usize>>,
    ranges: Map<u64, BitRange>,
) -> Option<Seq<MainItemNode>> {
    spec_insert_caps_from(
        list,
        false,
        caps_list,
        report_type,
        info.first_cap as int,
        info.last_cap as int,
        orders,
        ranges,
    )
}

/// The list after the capabilities of all report types were put into it:
/// the input fields first, then the output and the feature fields.
pub open spec fn spec_cap_items(
    list: Seq<MainItemNode>,
    header: HidpPreparsedData,
    caps_list: Seq<Caps>,
    orders: Seq<Seq<usize>>,
    ranges: Map<u64, BitRange>,
) -> Option<Seq<MainItemNode>> {
    match spec_insert_caps(list, caps_list, ReportType::Input, header.caps_info.0, orders, ranges) {
        None => None,
        Some(list) => match spec_insert_caps(
            list,
            caps_list,
            ReportType::Output,
            header.caps_info.1,
            orders,
            ranges,
        ) {
            None => None,
            Some(list) => spec_insert_caps(
                list,
                caps_list,
                ReportType::Feature,
                header.caps_info.2,
                orders,
                ranges,
            ),
        },
    }
}

fn insert_caps(
    list: &mut Vec<MainItemNode>,
    caps_list: &[Caps],
    report_type: ReportType,
    info: CapsInfo,
    lists: &Vec<Vec<usize>>,
    table: &BitRangeTable,
) -> (ok: bool)
    requires
        lists@.len() <= MAX_COLLECTIONS,
        spec_all_below(spec_lists(lists@), lists@.len() as int),
    ensures
        match spec_insert_caps(
            old(list)@,
            caps_list@,
            report_type,
            info,
            spec_lists(lists@),
            table@,
        ) {
            Some(after) => ok && final(list)@ == after,
            None => !ok,
        },
{
    let mut at: usize = info.first_cap as usize;
    let end: usize = info.last_cap as usize;
    let mut in_alias_set = false;
    while at < end
        invariant
            end == info.last_cap,
            lists@.len() <= MAX_COLLECTIONS,
            spec_all_below(spec_lists(lists@), lists@.len() as int),
            spec_insert_caps(
                old(list)@,
                caps_list@,
                report_type,
                info,
                spec_lists(lists@),
                table@,
            ) == spec_insert_caps_from(
                list@,
                in_alias_set,
                caps_list@,
                report_type,
                at as int,
                end as int,
                spec_lists(lists@),
                table@,
            ),
        decreases end - at,
    {
        if at >= caps_list.len() {
            return false;
        }
        match insert_cap(list, in_alias_set, at, &caps_list[at], report_type, lists, table) {
            None => {
                return false;
            },
            Some(in_set) => {
                in_alias_set = in_set;
            },
        }
        at = at + 1;
    }
    true
}

/// Puts the capabilities of all report types into the list of the
/// collections: see [`spec_insert_cap`].
pub fn cap_items(
    list: &mut Vec<MainItemNode>,
    header: &HidpPreparsedData,
    caps_list: &[Caps],
    lists: &Vec<Vec<usize>>,
    table: &BitRangeTable,
) -> (ok: bool)
    requires
        lists@.len() <= MAX_COLLECTIONS,
        spec_all_below(spec_lists(lists@), lists@.len() as int),
    ensures
        match spec_cap_items(old(list)@, *header, caps_list@, spec_lists(lists@), table@) {
            Some(after) => ok && final(list)@ == after,
            None => !ok,
        },
{
    if !insert_caps(list, caps_list, ReportType::Input, header.caps_info.0, lists, table) {
        return false;
    }
    if !insert_caps(list, caps_list, ReportType::Output, header.caps_info.1, lists, table) {
        return false;
    }
    insert_caps(list, caps_list, ReportType::Feature, header.caps_info.2, lists, table)
}

/// The place of a report in the tables of the padding: the reports are
/// counted by type, and for each type by id.
pub open spec fn spec_report_slot(report_type: ReportType, report_id: u8) -> int {
    report_type.spec_index() * 256 + report_id
}

/// The node that stands for the padding bits from `first_bit` to `last_bit`
/// of a report.
pub open spec fn spec_padding_node(
    first_bit: int,
    last_bit: int,
    kind: MainItems,
    report_id: u8,
) -> MainItemNode {
    MainItemNode {
        first_bit: first_bit as u16,
        last_bit: last_bit as u16,
        node_type: ItemNodeType::Padding,
        caps_index: -1i32,
        collection_index: 0,
        main_item_type: kind,
        report_id,
    }
}

/// The filling of the gaps between the fields, between two steps.
pub struct PaddingWalk {
    pub list: Seq<MainItemNode>,
    /// For each report the last bit of the field seen last.
    pub last_bit: Seq<Option<u16>>,
    /// For each report the position at which the field seen last was found.
    pub last_item: Seq<Option<usize>>,
    /// The position in the list at which the walk stands.
    pub at: int,
}

/// One step of the filling of the gaps: the node at which the walk stands is
/// looked at. Where it is a field that does not start behind the last bit of
/// the field before it in its report, nor at the first bit of that field, a
/// padding node for the bits between the two is put into the list, behind
/// the node that [`spec_search_from`] finds from the field before it. The
/// field is then the one seen last of its report.
pub open spec fn spec_gap_step(walk: PaddingWalk) -> Option<PaddingWalk> {
    let current = walk.list[walk.at];
    match current.main_item_type.spec_report_type() {
        None => Some(PaddingWalk { at: walk.at + 1, ..walk }),
        Some(report_type) => {
            let slot = spec_report_slot(report_type, current.report_id);
            let last_bit: int = match walk.last_bit[slot] {
                Some(bit) => bit as int,
                None => -1,
            };
            let seen = PaddingWalk {
                last_bit: walk.last_bit.update(slot, Some(current.last_bit)),
                last_item: walk.last_item.update(slot, Some(walk.at as usize)),
                at: walk.at + 1,
                ..walk
            };
            if last_bit + 1 != current.first_bit && walk.last_item[slot] is Some {
                let before = walk.last_item[slot]->0;
                if before >= walk.list.len() {
                    None
                } else if walk.list[before as int].first_bit != current.first_bit {
                    match spec_search_from(
                        walk.list,
                        last_bit,
                        current.main_item_type,
                        current.report_id,
                        before as int,
                    ) {
                        None => None,
                        Some(found) => if current.first_bit == 0 || last_bit + 1 > u16::MAX {
                            None
                        } else {
                            Some(
                                PaddingWalk {
                                    list: walk.list.insert(
                                        found + 1,
                                        spec_padding_node(
                                            last_bit + 1,
                                            current.first_bit - 1,
                                            current.main_item_type,
                                            current.report_id,
                                        ),
                                    ),
                                    last_bit: walk.last_bit.update(slot, Some(current.last_bit)),
                                    last_item: walk.last_item.update(
                                        slot,
                                        Some((walk.at + 1) as usize),
                                    ),
                                    at: walk.at + 2,
                                },
                            )
                        },
                    }
                } else {
                    Some(seen)
                }
            } else {
                Some(seen)
            }
        },
    }
}

/// The walk after `remaining` more nodes were looked at.
pub open spec fn spec_fill_gaps(walk: PaddingWalk, remaining: nat) -> Option<PaddingWalk>
    decreases remaining,
{
    if remaining == 0 {
        Some(walk)
    } else {
        match spec_gap_step(walk) {
            None => None,
            Some(after) => spec_fill_gaps(after, (remaining - 1) as nat),
        }
    }
}

/// The table of positions after a node was put into the list behind
/// position `place`: the positions behind it are one larger.
pub open spec fn spec_shift_after(last_item: Seq<Option<usize>>, place: usize) -> Seq<Option<usize>> {
    Seq::new(
        last_item.len(),
        |slot: int|
            match last_item[slot] {
                Some(at) => if at > place {
                    Some((at + 1) as usize)
                } else {
                    Some(at)
                },
                None => None,
            },
    )
}

/// The list after the reports from the slot `slot` on were padded to whole
/// bytes: where the field seen last of a report does not end at the last
/// bit of a byte, a padding node for the rest of that byte is put behind
/// it. There is no result where the position of that field is not in the
/// list.
pub open spec fn spec_pad_ends_from(
    list: Seq<MainItemNode>,
    last_bit: Seq<Option<u16>>,
    last_item: Seq<Option<usize>>,
    slot: int,
) -> Option<Seq<MainItemNode>>
    decreases KEYS_PER_COLLECTION - slot,
{
    if slot < 0 || slot >= KEYS_PER_COLLECTION {
        Some(list)
    } else {
        match last_bit[slot] {
            None => spec_pad_ends_from(list, last_bit, last_item, slot + 1),
            Some(bit) => {
                let padding = 8 - (bit + 1) % 8;
                if padding < 8 {
                    match last_item[slot] {
                        None => None,
                        Some(place) => if place >= list.len() || bit + padding > u16::MAX {
                            None
                        } else {
                            spec_pad_ends_from(
                                list.insert(
                                    place + 1,
                                    spec_padding_node(
                                        bit + 1,
                                        bit + padding,
                                        MainItems::spec_from_report_type(
                                            spec_report_type_of(slot / 256),
                                        ),
                                        (slot % 256) as u8,
                                    ),
                                ),
                                last_bit,
                                spec_shift_after(last_item, place),
                                slot + 1,
                            )
                        },
                    }
                } else {
                    spec_pad_ends_from(list, last_bit, last_item, slot + 1)
                }
            },
        }
    }
}

/// The list with its padding: the gaps between the fields of each report
/// filled, and each report padded to whole bytes.
pub open spec fn spec_padded(list: Seq<MainItemNode>) -> Option<Seq<MainItemNode>> {
    match spec_fill_gaps(
        PaddingWalk {
            list,
            last_bit: Seq::new(KEYS_PER_COLLECTION as nat, |slot: int| None::<u16>),
            last_item: Seq::new(KEYS_PER_COLLECTION as nat, |slot: int| None::<usize>),
            at: 0,
        },
        list.len(),
    ) {
        None => None,
        Some(walk) => spec_pad_ends_from(walk.list, walk.last_bit, walk.last_item, 0),
    }
}

fn padding_node(first_bit: u16, last_bit: u16, kind: MainItems, report_id: u8) -> (node:
    MainItemNode)
    ensures
        node == spec_padding_node(first_bit as int, last_bit as int, kind, report_id),
{
    MainItemNode::new(first_bit, last_bit, ItemNodeType::Padding, -1, 0, kind, report_id)
}

fn shift_after(last_item: &mut Vec<Option<usize>>, place: usize)
    requires
        forall|slot: int|
            0 <= slot < old(last_item)@.len() && (#[trigger] old(last_item)@[slot]) is Some
                ==> old(last_item)@[slot]->0 < usize::MAX,
    ensures
        final(last_item)@ == spec_shift_after(old(last_item)@, place),
{
    let mut slot: usize = 0;
    while slot < last_item.len()
        invariant
            last_item@.len() == old(last_item)@.len(),
            forall|i: int|
                0 <= i < old(last_item)@.len() && (#[trigger] old(last_item)@[i]) is Some ==> old(
                    last_item,
                )@[i]->0 < usize::MAX,
            forall|i: int|
                0 <= i < slot ==> (#[trigger] last_item@[i]) == spec_shift_after(
                    old(last_item)@,
                    place,
                )[i],
            forall|i: int| slot <= i < last_item@.len() ==> (#[trigger] last_item@[i]) == old(
                last_item,
            )@[i],
        decreases last_item.len() - slot,
    {
        match last_item[slot] {
            Some(at) => {
                if at > place {
                    last_item.set(slot, Some(at + 1));
                }
            },
            None => {},
        }
        slot = slot + 1;
    }
    assert(last_item@ =~= spec_shift_after(old(last_item)@, place));
}

/// Puts the padding into the list: see [`spec_gap_step`] and
/// [`spec_pad_ends_from`].
pub fn add_padding(list: &mut Vec<MainItemNode>) -> (ok: bool)
    ensures
        match spec_padded(old(list)@) {
            Some(after) => ok && final(list)@ == after,
            None => !ok,
        },
{
    let mut last_bit: Vec<Option<u16>> = Vec::new();
    let mut last_item: Vec<Option<usize>> = Vec::new();
    let mut filled: usize = 0;
    while filled < KEYS_PER_COLLECTION
        invariant
            filled <= KEYS_PER_COLLECTION,
            last_bit@ =~= Seq::new(filled as nat, |slot: int| None::<u16>),
            last_item@ =~= Seq::new(filled as nat, |slot: int| None::<usize>),
        decreases KEYS_PER_COLLECTION - filled,
    {
        last_bit.push(None);
        last_item.push(None);
        filled = filled + 1;
    }
    let mut at: usize = 0;
    let ghost mut remaining: nat = list@.len();
    while at < list.len()
        invariant
            last_bit@.len() == KEYS_PER_COLLECTION,
            last_item@.len() == KEYS_PER_COLLECTION,
            at + remaining == list@.len(),
            forall|slot: int|
                0 <= slot < KEYS_PER_COLLECTION && (#[trigger] last_item@[slot]) is Some
                    ==> last_item@[slot]->0 < list@.len(),
            spec_fill_gaps(
                PaddingWalk {
                    list: old(list)@,
                    last_bit: Seq::new(KEYS_PER_COLLECTION as nat, |slot: int| None::<u16>),
                    last_item: Seq::new(KEYS_PER_COLLECTION as nat, |slot: int| None::<usize>),
                    at: 0,
                },
                old(list)@.len(),
            ) == spec_fill_gaps(
                PaddingWalk { list: list@, last_bit: last_bit@, last_item: last_item@, at: at as int },
                remaining,
            ),
        decreases list.len() - at,
    {
        let current = list[at];
        proof {
            remaining = (remaining - 1) as nat;
        }
        match current.main_item_type.report_type() {
            None => {
                at = at + 1;
            },
            Some(report_type) => {
                let slot: usize = report_type.index() * 256 + current.report_id as usize;
                let before_bit: i32 = match last_bit[slot] {
                    Some(bit) => bit as i32,
                    None => -1,
                };
                let mut inserted = false;
                if before_bit + 1 != current.first_bit as i32 {
                    match last_item[slot] {
                        Some(before) => {
                            if before >= list.len() {
                                return false;
                            }
                            if list[before].first_bit != current.first_bit {
                                let found = match search_list(
                                    before_bit,
                                    current.main_item_type,
                                    current.report_id,
                                    before,
                                    list.as_slice(),
                                ) {
                                    None => { return false; },
                                    Some(found) => found,
                                };
                                if current.first_bit == 0 || before_bit + 1 > 0xffff {
                                    return false;
                                }
                                list.insert(
                                    found + 1,
                                    padding_node(
                                        (before_bit + 1) as u16,
                                        current.first_bit - 1,
                                        current.main_item_type,
                                        current.report_id,
                                    ),
                                );
                                inserted = true;
                            }
                        },
                        None => {},
                    }
                }
                assert(list@.len() == list.len());
                if inserted {
                    at = at + 1;
                }
                last_bit.set(slot, Some(current.last_bit));
                last_item.set(slot, Some(at));
                at = at + 1;
            },
        }
    }
    let mut slot: usize = 0;
    while slot < KEYS_PER_COLLECTION
        invariant
            last_bit@.len() == KEYS_PER_COLLECTION,
            last_item@.len() == KEYS_PER_COLLECTION,
            forall|i: int|
                0 <= i < KEYS_PER_COLLECTION && (#[trigger] last_item@[i]) is Some
                    ==> last_item@[i]->0 < list@.len(),
            spec_padded(old(list)@) == spec_pad_ends_from(
                list@,
                last_bit@,
                last_item@,
                slot as int,
            ),
        decreases KEYS_PER_COLLECTION - slot,
    {
        match last_bit[slot] {
            None => {},
            Some(bit) => {
                let padding: u32 = 8 - (bit as u32 + 1) % 8;
                if padding < 8 {
                    let place = match last_item[slot] {
                        None => { return false; },
                        Some(place) => place,
                    };
                    if place >= list.len() || bit as u32 + padding > 0xffff {
                        return false;
                    }
                    list.insert(
                        place + 1,
                        padding_node(
                            bit + 1,
                            (bit as u32 + padding) as u16,
                            main_item_of(report_type_of(slot / 256)),
                            (slot % 256) as u8,
                        ),
                    );
                    shift_after(&mut last_item, place);
                }
            },
        }
        slot = slot + 1;
    }
    true
}

} // verus!

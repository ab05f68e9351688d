//! The shape of the collection tree: the depth of each collection, the
//! number of its children, and the order in which its children stand in the
//! descriptor.
//!
//! The nodes of the tree name their parent, their first child and their
//! next sibling by index; index 0 is the root, and stands for "none" as a
//! sibling. Nothing is taken for granted of these indices: a walk that
//! leaves the array or does not come to an end has no result.

use vstd::prelude::*;
use crate::windows_native::descriptor::ranges::{
    spec_lookup,
    BitRangeTable,
    KEYS_PER_COLLECTION,
    MAX_COLLECTIONS,
};
use crate::windows_native::descriptor::typedefs::LinkCollectionNode;
use crate::windows_native::descriptor::types::{BitRange, ReportType};

verus! {

/// A walk through the collection tree, between two steps.
pub struct TreeWalk {
    /// The depth of each collection; -1 where the walk has not been.
    pub levels: Seq<i32>,
    /// The children counted so far of each collection.
    pub child_counts: Seq<usize>,
    /// The largest depth that the walk has reached.
    pub max_level: i32,
    /// The depth at which the walk stands; -1 once it has left the root.
    pub level: i32,
    /// The collection at which the walk stands.
    pub at: int,
}

/// The depths of the collections of a tree and the numbers of their
/// children.
pub struct TreeShape {
    pub levels: Vec<i32>,
    pub child_counts: Vec<usize>,
    pub max_level: i32,
}

/// The start of a walk over `len` collections: at the root, at depth 0.
pub open spec fn spec_walk_start(len: nat) -> TreeWalk {
    TreeWalk {
        levels: Seq::new(len, |i: int| -1i32),
        child_counts: Seq::new(len, |i: int| 0usize),
        max_level: 0,
        level: 0,
        at: 0,
    }
}

/// One step of the walk. The collection at which the walk stands gets the
/// depth of the walk. Then the walk goes down to its first child, if it has
/// children and the first of them was not visited, and counts that child;
/// else on to its next sibling, if there is one, and counts that for the
/// parent; else back up to its parent. There is no step from outside the
/// array, nor one that counts for a collection outside it.
pub open spec fn spec_walk_step(nodes: Seq<LinkCollectionNode>, walk: TreeWalk) -> Option<TreeWalk> {
    if !(0 <= walk.at < nodes.len()) {
        None
    } else {
        let node = nodes[walk.at];
        let levels = walk.levels.update(walk.at, walk.level);
        if node.number_of_children > 0 && node.first_child >= nodes.len() {
            None
        } else if node.number_of_children > 0 && levels[node.first_child as int] == -1 {
            if walk.level == i32::MAX || walk.child_counts[walk.at] == usize::MAX {
                None
            } else {
                let level = (walk.level + 1) as i32;
                Some(
                    TreeWalk {
                        levels: levels.update(walk.at, level),
                        child_counts: walk.child_counts.update(
                            walk.at,
                            (walk.child_counts[walk.at] + 1) as usize,
                        ),
                        max_level: if walk.max_level >= level {
                            walk.max_level
                        } else {
                            level
                        },
                        level,
                        at: node.first_child as int,
                    },
                )
            }
        } else if node.next_sibling != 0 {
            if node.parent >= nodes.len() || walk.child_counts[node.parent as int] == usize::MAX {
                None
            } else {
                Some(
                    TreeWalk {
                        levels,
                        child_counts: walk.child_counts.update(
                            node.parent as int,
                            (walk.child_counts[node.parent as int] + 1) as usize,
                        ),
                        at: node.next_sibling as int,
                        ..walk
                    },
                )
            }
        } else {
            Some(TreeWalk { levels, level: (walk.level - 1) as i32, at: node.parent as int, ..walk })
        }
    }
}

/// The walk after it has left the root, if it does so within `fuel` steps.
pub open spec fn spec_walk(nodes: Seq<LinkCollectionNode>, walk: TreeWalk, fuel: nat) -> Option<
    TreeWalk,
>
    decreases fuel,
{
    if walk.level < 0 {
        Some(walk)
    } else if fuel == 0 {
        None
    } else {
        match spec_walk_step(nodes, walk) {
            None => None,
            Some(after) => spec_walk(nodes, after, (fuel - 1) as nat),
        }
    }
}

/// The number of steps that a walk may take: three for each collection, and
/// three more. A walk through a tree takes fewer: it enters each collection
/// once from its parent or its sibling, and leaves each once upwards.
pub open spec fn spec_walk_fuel(len: nat) -> nat {
    3 * len + 3
}

/// The depths and the numbers of children that a walk from the root finds.
pub open spec fn spec_tree_shape(nodes: Seq<LinkCollectionNode>) -> Option<TreeWalk> {
    spec_walk(nodes, spec_walk_start(nodes.len()), spec_walk_fuel(nodes.len()))
}

/// Walks the tree from the root and records the depth of each collection,
/// the number of children of each, and the largest depth: see
/// [`spec_walk_step`]. There is no result where the walk leaves the array
/// or does not end within three steps for each collection.
pub fn tree_shape(nodes: &[LinkCollectionNode]) -> (result: Option<TreeShape>)
    requires
        nodes.len() <= MAX_COLLECTIONS,
    ensures
        match spec_tree_shape(nodes@) {
            Some(walk) => {
                &&& result is Some
                &&& result->0.levels@ == walk.levels
                &&& result->0.child_counts@ == walk.child_counts
                &&& result->0.max_level == walk.max_level
                &&& walk.levels.len() == nodes@.len()
                &&& walk.child_counts.len() == nodes@.len()
            },
            None => result is None,
        },
{
    let len = nodes.len();
    let mut levels: Vec<i32> = Vec::new();
    let mut child_counts: Vec<usize> = Vec::new();
    let mut filled: usize = 0;
    while filled < len
        invariant
            filled <= len,
            levels@ =~= Seq::new(filled as nat, |i: int| -1i32),
            child_counts@ =~= Seq::new(filled as nat, |i: int| 0usize),
        decreases len - filled,
    {
        levels.push(-1);
        child_counts.push(0);
        filled = filled + 1;
    }
    let mut max_level: i32 = 0;
    let mut level: i32 = 0;
    let mut at: usize = 0;
    let mut fuel: usize = 3 * len + 3;
    while level >= 0
        invariant
            len == nodes.len(),
            levels@.len() == len,
            child_counts@.len() == len,
            spec_tree_shape(nodes@) == spec_walk(
                nodes@,
                TreeWalk {
                    levels: levels@,
                    child_counts: child_counts@,
                    max_level,
                    level,
                    at: at as int,
                },
                fuel as nat,
            ),
        decreases fuel,
    {
        if fuel == 0 || at >= len {
            return None;
        }
        fuel = fuel - 1;
        let node = &nodes[at];
        levels.set(at, level);
        if node.number_of_children > 0 && node.first_child as usize >= len {
            return None;
        } else if node.number_of_children > 0 && levels[node.first_child as usize] == -1 {
            if level == i32::MAX || child_counts[at] == usize::MAX {
                return None;
            }
            level = level + 1;
            levels.set(at, level);
            if max_level < level {
                max_level = level;
            }
            let count = child_counts[at];
            child_counts.set(at, count + 1);
            at = node.first_child as usize;
        } else if node.next_sibling != 0 {
            let parent = node.parent as usize;
            if parent >= len || child_counts[parent] == usize::MAX {
                return None;
            }
            let count = child_counts[parent];
            child_counts.set(parent, count + 1);
            at = node.next_sibling as usize;
        } else {
            level = level - 1;
            at = node.parent as usize;
        }
    }
    Some(TreeShape { levels, child_counts, max_level })
}

/// The list `found` with `child` and the siblings after it put in front of
/// it, each before the one it follows in the tree: the last sibling comes
/// first. There is no result where a sibling is not in the array, or where
/// more than `fuel` of them follow each other.
pub open spec fn spec_child_list_from(
    nodes: Seq<LinkCollectionNode>,
    child: int,
    fuel: nat,
    found: Seq<usize>,
) -> Option<Seq<usize>>
    decreases fuel,
{
    if fuel == 0 || !(0 <= child < nodes.len()) {
        None
    } else {
        let found = found.insert(0, child as usize);
        if nodes[child].next_sibling == 0 {
            Some(found)
        } else {
            spec_child_list_from(nodes, nodes[child].next_sibling as int, (fuel - 1) as nat, found)
        }
    }
}

/// Whether the child `before` starts later than the child `after` in the
/// report with the given id and type; not so where one of them holds no
/// bits in that report.
pub open spec fn spec_starts_later(
    ranges: Map<u64, BitRange>,
    before: usize,
    after: usize,
    report_id: int,
    report_type: ReportType,
) -> bool {
    match (
        spec_lookup(ranges, before as int, report_id, report_type),
        spec_lookup(ranges, after as int, report_id, report_type),
    ) {
        (Some(first), Some(second)) => first.first_bit > second.first_bit,
        _ => false,
    }
}

/// The list `order` after one pass from position `at` on, for one report:
/// each child changes places with the one before it where that one starts
/// later in the report.
pub open spec fn spec_pass_from(
    order: Seq<usize>,
    ranges: Map<u64, BitRange>,
    report_id: int,
    report_type: ReportType,
    at: int,
) -> Seq<usize>
    decreases order.len() - at,
{
    if at < 1 || at >= order.len() {
        order
    } else {
        let order = if spec_starts_later(ranges, order[at - 1], order[at], report_id, report_type) {
            order.update(at - 1, order[at]).update(at, order[at - 1])
        } else {
            order
        };
        spec_pass_from(order, ranges, report_id, report_type, at + 1)
    }
}

/// The report type of a key of the passes: the keys count the report types,
/// and for each of them the 256 report ids.
pub open spec fn spec_pass_report_type(key: int) -> ReportType {
    if key / 256 == 1 {
        ReportType::Output
    } else if key / 256 == 2 {
        ReportType::Feature
    } else {
        ReportType::Input
    }
}

/// The list `order` after one pass for each report from the key `key` on.
pub open spec fn spec_passes_from(order: Seq<usize>, ranges: Map<u64, BitRange>, key: int) -> Seq<
    usize,
>
    decreases KEYS_PER_COLLECTION - key,
{
    if key < 0 || key >= KEYS_PER_COLLECTION {
        order
    } else {
        spec_passes_from(
            spec_pass_from(order, ranges, key % 256, spec_pass_report_type(key), 1),
            ranges,
            key + 1,
        )
    }
}

/// The children of the collection `at` in the order in which they stand in
/// the descriptor. The children are taken in the reverse of the order in
/// which the tree links them, and then moved by one pass for each report,
/// first the input reports by their ids, then the output and the feature
/// reports, so that a child that starts later in a report comes after its
/// neighbour. There is no result where the tree does not link as many
/// children as were counted for the collection.
pub open spec fn spec_child_order(
    nodes: Seq<LinkCollectionNode>,
    child_counts: Seq<usize>,
    ranges: Map<u64, BitRange>,
    at: int,
) -> Option<Seq<usize>> {
    if child_counts[at] == 0 {
        Some(Seq::empty())
    } else {
        match spec_child_list_from(
            nodes,
            nodes[at].first_child as int,
            child_counts[at] as nat,
            Seq::empty(),
        ) {
            None => None,
            Some(order) => if order.len() != child_counts[at] {
                None
            } else if order.len() > 1 {
                Some(spec_passes_from(order, ranges, 0))
            } else {
                Some(order)
            },
        }
    }
}

/// The order of the children of every collection; none where one of the
/// collections has none.
pub open spec fn spec_child_orders(
    nodes: Seq<LinkCollectionNode>,
    child_counts: Seq<usize>,
    ranges: Map<u64, BitRange>,
) -> Option<Seq<Seq<usize>>> {
    if forall|at: int|
        0 <= at < nodes.len() ==> (#[trigger] spec_child_order(nodes, child_counts, ranges, at))
            is Some {
        Some(
            Seq::new(
                nodes.len(),
                |at: int| spec_child_order(nodes, child_counts, ranges, at)->0,
            ),
        )
    } else {
        None
    }
}

/// The lists of a vector of vectors.
pub open spec fn spec_lists(lists: Seq<Vec<usize>>) -> Seq<Seq<usize>> {
    Seq::new(lists.len(), |at: int| lists[at]@)
}

/// Whether every list names only collections below `len`.
pub open spec fn spec_all_below(orders: Seq<Seq<usize>>, len: int) -> bool {
    forall|at: int, child: int|
        0 <= at < orders.len() && 0 <= child < orders[at].len() ==> (#[trigger] orders[at][child])
            < len
}

fn child_list(nodes: &[LinkCollectionNode], first_child: usize, count: usize) -> (result: Option<
    Vec<usize>,
>)
    ensures
        match spec_child_list_from(nodes@, first_child as int, count as nat, Seq::empty()) {
            Some(order) => result is Some && result->0@ == order,
            None => result is None,
        },
        result is Some ==> forall|i: int|
            0 <= i < result->0@.len() ==> (#[trigger] result->0@[i]) < nodes@.len(),
{
    let mut found: Vec<usize> = Vec::new();
    let mut child: usize = first_child;
    let mut fuel: usize = count;
    loop
        invariant
            spec_child_list_from(nodes@, first_child as int, count as nat, Seq::empty())
                == spec_child_list_from(nodes@, child as int, fuel as nat, found@),
            forall|i: int| 0 <= i < found@.len() ==> (#[trigger] found@[i]) < nodes@.len(),
        decreases fuel,
    {
        if fuel == 0 || child >= nodes.len() {
            return None;
        }
        found.insert(0, child);
        if nodes[child].next_sibling == 0 {
            return Some(found);
        }
        child = nodes[child].next_sibling as usize;
        fuel = fuel - 1;
    }
}

fn starts_later(
    table: &BitRangeTable,
    before: usize,
    after: usize,
    report_id: u8,
    report_type: ReportType,
) -> (later: bool)
    requires
        before < MAX_COLLECTIONS,
        after < MAX_COLLECTIONS,
    ensures
        later == spec_starts_later(table@, before, after, report_id as int, report_type),
{
    match table.get(before, report_id, report_type) {
        Some(first) => match table.get(after, report_id, report_type) {
            Some(second) => first.first_bit > second.first_bit,
            None => false,
        },
        None => false,
    }
}

fn pass(order: &mut Vec<usize>, table: &BitRangeTable, report_id: u8, report_type: ReportType)
    requires
        forall|i: int| 0 <= i < old(order)@.len() ==> (#[trigger] old(order)@[i]) < MAX_COLLECTIONS,
    ensures
        final(order)@ == spec_pass_from(old(order)@, table@, report_id as int, report_type, 1),
        final(order)@.len() == old(order)@.len(),
        forall|i: int|
            0 <= i < final(order)@.len() ==> old(order)@.contains(#[trigger] final(order)@[i]),
{
    let mut at: usize = 1;
    while at < order.len()
        invariant
            1 <= at,
            order@.len() == old(order)@.len(),
            forall|i: int| 0 <= i < order@.len() ==> (#[trigger] order@[i]) < MAX_COLLECTIONS,
            forall|i: int| 0 <= i < order@.len() ==> old(order)@.contains(#[trigger] order@[i]),
            spec_pass_from(old(order)@, table@, report_id as int, report_type, 1) == spec_pass_from(
                order@,
                table@,
                report_id as int,
                report_type,
                at as int,
            ),
        decreases order.len() - at,
    {
        let before = order[at - 1];
        let after = order[at];
        if starts_later(table, before, after, report_id, report_type) {
            order.set(at - 1, after);
            order.set(at, before);
        }
        at = at + 1;
    }
}

fn passes(order: &mut Vec<usize>, table: &BitRangeTable)
    requires
        forall|i: int| 0 <= i < old(order)@.len() ==> (#[trigger] old(order)@[i]) < MAX_COLLECTIONS,
    ensures
        final(order)@ == spec_passes_from(old(order)@, table@, 0),
        final(order)@.len() == old(order)@.len(),
        forall|i: int|
            0 <= i < final(order)@.len() ==> old(order)@.contains(#[trigger] final(order)@[i]),
{
    let mut key: usize = 0;
    while key < KEYS_PER_COLLECTION
        invariant
            order@.len() == old(order)@.len(),
            forall|i: int| 0 <= i < order@.len() ==> (#[trigger] order@[i]) < MAX_COLLECTIONS,
            forall|i: int| 0 <= i < order@.len() ==> old(order)@.contains(#[trigger] order@[i]),
            spec_passes_from(old(order)@, table@, 0) == spec_passes_from(
                order@,
                table@,
                key as int,
            ),
        decreases KEYS_PER_COLLECTION - key,
    {
        let report_type = if key / 256 == 1 {
            ReportType::Output
        } else if key / 256 == 2 {
            ReportType::Feature
        } else {
            ReportType::Input
        };
        pass(order, table, (key % 256) as u8, report_type);
        key = key + 1;
    }
}

fn child_order(
    nodes: &[LinkCollectionNode],
    child_counts: &Vec<usize>,
    table: &BitRangeTable,
    at: usize,
) -> (result: Option<Vec<usize>>)
    requires
        at < nodes.len() <= MAX_COLLECTIONS,
        child_counts@.len() == nodes@.len(),
    ensures
        match spec_child_order(nodes@, child_counts@, table@, at as int) {
            Some(order) => result is Some && result->0@ == order,
            None => result is None,
        },
        result is Some ==> result->0@.len() == child_counts@[at as int],
        result is Some ==> forall|i: int|
            0 <= i < result->0@.len() ==> (#[trigger] result->0@[i]) < nodes@.len(),
{
    let count = child_counts[at];
    if count == 0 {
        return Some(Vec::new());
    }
    let mut order = match child_list(nodes, nodes[at].first_child as usize, count) {
        None => { return None; },
        Some(order) => order,
    };
    if order.len() != count {
        return None;
    }
    if order.len() > 1 {
        passes(&mut order, table);
    }
    Some(order)
}

/// Puts the children of every collection in the order in which they stand
/// in the descriptor: see [`spec_child_order`]. Every list of the result
/// holds as many children as were counted for its collection, and only
/// collections of the array.
pub fn child_orders(
    nodes: &[LinkCollectionNode],
    child_counts: &Vec<usize>,
    table: &BitRangeTable,
) -> (result: Option<Vec<Vec<usize>>>)
    requires
        nodes.len() <= MAX_COLLECTIONS,
        child_counts@.len() == nodes@.len(),
    ensures
        match spec_child_orders(nodes@, child_counts@, table@) {
            Some(orders) => result is Some && spec_lists(result->0@) == orders,
            None => result is None,
        },
        result is Some ==> result->0@.len() == nodes@.len() && spec_all_below(
            spec_lists(result->0@),
            nodes@.len() as int,
        ),
{
    let mut lists: Vec<Vec<usize>> = Vec::new();
    let mut at: usize = 0;
    while at < nodes.len()
        invariant
            at <= nodes.len() <= MAX_COLLECTIONS,
            child_counts@.len() == nodes@.len(),
            lists@.len() == at,
            forall|i: int|
                0 <= i < at ==> (#[trigger] spec_child_order(nodes@, child_counts@, table@, i))
                    == Some(lists@[i]@),
            forall|i: int, child: int|
                0 <= i < at && 0 <= child < lists@[i]@.len() ==> (#[trigger] lists@[i]@[child])
                    < nodes@.len(),
        decreases nodes.len() - at,
    {
        match child_order(nodes, child_counts, table, at) {
            None => {
                return None;
            },
            Some(order) => {
                lists.push(order);
            },
        }
        at = at + 1;
    }
    assert(spec_lists(lists@) =~= spec_child_orders(nodes@, child_counts@, table@)->0);
    Some(lists)
}

} // verus!

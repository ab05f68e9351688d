//! What the propagation of the bit ranges achieves: every collection ends
//! up with the bits of the whole tree under it.

use vstd::prelude::*;
use crate::windows_native::descriptor::ranges::{
    spec_lookup,
    spec_merge_child_keys,
    spec_merge_children,
    spec_merge_into,
    spec_propagate,
    spec_propagate_level,
    spec_range_key,
    spec_report_type_of,
    KEYS_PER_COLLECTION,
    MAX_COLLECTIONS,
};
use crate::windows_native::descriptor::typedefs::LinkCollectionNode;
use crate::windows_native::descriptor::types::{BitRange, ReportType};

verus! {

/// The smallest range that covers two ranges, of which either may be
/// missing.
pub open spec fn spec_union(first: Option<BitRange>, second: Option<BitRange>) -> Option<BitRange> {
    match (first, second) {
        (Some(a), Some(b)) => Some(a.spec_merge(b)),
        (Some(a), None) => Some(a),
        (None, other) => other,
    }
}

/// The bits of the tree under the collection `node` in one report: the
/// bits of its own fields, which `direct` holds, and the bits of the trees
/// under its children. `height` is the number of levels that are looked at
/// below the collection.
pub open spec fn spec_subtree_range(
    nodes: Seq<LinkCollectionNode>,
    direct: Map<u64, BitRange>,
    node: int,
    report_id: int,
    report_type: ReportType,
    height: nat,
) -> Option<BitRange>
    decreases height, nodes.len() + 1,
{
    spec_children_range(
        nodes,
        direct,
        nodes[node].first_child as int,
        report_id,
        report_type,
        height,
        nodes.len(),
        spec_lookup(direct, node, report_id, report_type),
    )
}

/// The range `found` together with the bits of the trees under `child` and
/// under the siblings that follow it, at most `fuel` of them.
pub open spec fn spec_children_range(
    nodes: Seq<LinkCollectionNode>,
    direct: Map<u64, BitRange>,
    child: int,
    report_id: int,
    report_type: ReportType,
    height: nat,
    fuel: nat,
    found: Option<BitRange>,
) -> Option<BitRange>
    decreases height, fuel,
{
    if child <= 0 || child >= nodes.len() || fuel == 0 || height == 0 || fuel > nodes.len() {
        found
    } else {
        spec_children_range(
            nodes,
            direct,
            nodes[child].next_sibling as int,
            report_id,
            report_type,
            height,
            (fuel - 1) as nat,
            spec_union(
                found,
                spec_subtree_range(nodes, direct, child, report_id, report_type, (height - 1) as nat),
            ),
        )
    }
}

/// Whether `child` and the siblings that follow it are collections of the
/// array at the depth `level`, and the last of them is reached within
/// `fuel` steps.
pub open spec fn spec_chain_is_level(
    nodes: Seq<LinkCollectionNode>,
    levels: Seq<i32>,
    child: int,
    level: int,
    fuel: nat,
) -> bool
    decreases fuel,
{
    if child == 0 {
        true
    } else if fuel == 0 || child < 0 || child >= nodes.len() {
        false
    } else {
        levels[child] == level && spec_chain_is_level(
            nodes,
            levels,
            nodes[child].next_sibling as int,
            level,
            (fuel - 1) as nat,
        )
    }
}

/// Whether `levels` are the depths of the collections of a tree that is no
/// deeper than `max_level`: the children of a collection stand one level
/// below it.
pub open spec fn spec_is_layered(
    nodes: Seq<LinkCollectionNode>,
    levels: Seq<i32>,
    max_level: int,
) -> bool {
    &&& nodes.len() == levels.len()
    &&& nodes.len() <= MAX_COLLECTIONS
    &&& forall|node: int| 0 <= node < nodes.len() ==> 0 <= #[trigger] levels[node] <= max_level
    &&& forall|node: int|
        0 <= node < nodes.len() ==> spec_chain_is_level(
            nodes,
            levels,
            (#[trigger] nodes[node]).first_child as int,
            levels[node] + 1,
            nodes.len(),
        )
}

/// The range `found` together with the bits that the table `ranges` holds
/// for `child` and for the siblings that follow it.
pub open spec fn spec_chain_union(
    nodes: Seq<LinkCollectionNode>,
    ranges: Map<u64, BitRange>,
    child: int,
    report_id: int,
    report_type: ReportType,
    fuel: nat,
    found: Option<BitRange>,
) -> Option<BitRange>
    decreases fuel,
{
    if child <= 0 || child >= nodes.len() || fuel == 0 {
        found
    } else {
        spec_chain_union(
            nodes,
            ranges,
            nodes[child].next_sibling as int,
            report_id,
            report_type,
            (fuel - 1) as nat,
            spec_union(found, spec_lookup(ranges, child, report_id, report_type)),
        )
    }
}

/// Whether the propagation has reached the depth `level`: the collections
/// at that depth and below it hold the bits of the trees under them, the
/// collections above it the bits of their own fields.
pub open spec fn spec_settled(
    nodes: Seq<LinkCollectionNode>,
    levels: Seq<i32>,
    direct: Map<u64, BitRange>,
    ranges: Map<u64, BitRange>,
    max_level: int,
    level: int,
) -> bool {
    forall|node: int, report_id: int, report_type: ReportType|
        0 <= node < nodes.len() && 0 <= report_id < 256 ==> #[trigger] spec_lookup(
            ranges,
            node,
            report_id,
            report_type,
        ) == if levels[node] >= level {
            spec_subtree_range(
                nodes,
                direct,
                node,
                report_id,
                report_type,
                (max_level - levels[node]) as nat,
            )
        } else {
            spec_lookup(direct, node, report_id, report_type)
        }
}

/// Two reports of two collections have the same key only where they are
/// the same report of the same collection.
proof fn lemma_key_is_injective(
    collection: int,
    report_id: int,
    report_type: ReportType,
    other: int,
    other_id: int,
    other_type: ReportType,
)
    requires
        0 <= collection < MAX_COLLECTIONS,
        0 <= report_id < 256,
        0 <= other < MAX_COLLECTIONS,
        0 <= other_id < 256,
    ensures
        spec_range_key(collection, report_id, report_type) == spec_range_key(
            other,
            other_id,
            other_type,
        ) <==> collection == other && report_id == other_id && report_type == other_type,
{
}

/// Adding a range to a report of a collection changes the bits of that
/// report of that collection, and of no other.
proof fn lemma_merge_into_lookup(
    ranges: Map<u64, BitRange>,
    collection: int,
    report_id: int,
    report_type: ReportType,
    range: BitRange,
    other: int,
    other_id: int,
    other_type: ReportType,
)
    requires
        0 <= collection < MAX_COLLECTIONS,
        0 <= report_id < 256,
        0 <= other < MAX_COLLECTIONS,
        0 <= other_id < 256,
    ensures
        spec_lookup(
            spec_merge_into(ranges, collection, report_id, report_type, range),
            other,
            other_id,
            other_type,
        ) == if collection == other && report_id == other_id && report_type == other_type {
            spec_union(spec_lookup(ranges, collection, report_id, report_type), Some(range))
        } else {
            spec_lookup(ranges, other, other_id, other_type)
        },
{
    lemma_key_is_injective(collection, report_id, report_type, other, other_id, other_type);
}

/// Adding the bits of a child to its parent, for the keys from `key` on,
/// changes those reports of the parent and nothing else.
proof fn lemma_merge_child_keys_lookup(
    ranges: Map<u64, BitRange>,
    parent: int,
    child: int,
    key: int,
    other: int,
    other_id: int,
    other_type: ReportType,
)
    requires
        0 <= parent < MAX_COLLECTIONS,
        0 <= child < MAX_COLLECTIONS,
        parent != child,
        0 <= key <= KEYS_PER_COLLECTION,
        0 <= other < MAX_COLLECTIONS,
        0 <= other_id < 256,
    ensures
        spec_lookup(spec_merge_child_keys(ranges, parent, child, key), other, other_id, other_type)
            == if other == parent && other_id * 3 + other_type.spec_index() >= key {
            spec_union(
                spec_lookup(ranges, parent, other_id, other_type),
                spec_lookup(ranges, child, other_id, other_type),
            )
        } else {
            spec_lookup(ranges, other, other_id, other_type)
        },
    decreases KEYS_PER_COLLECTION - key,
{
    if key < KEYS_PER_COLLECTION {
        let report_id = key / 3;
        let report_type = spec_report_type_of(key % 3);
        assert(report_id * 3 + report_type.spec_index() == key);
        let after = match spec_lookup(ranges, child, report_id, report_type) {
            Some(range) => spec_merge_into(ranges, parent, report_id, report_type, range),
            None => ranges,
        };
        lemma_merge_child_keys_lookup(after, parent, child, key + 1, other, other_id, other_type);
        match spec_lookup(ranges, child, report_id, report_type) {
            Some(range) => {
                lemma_merge_into_lookup(
                    ranges,
                    parent,
                    report_id,
                    report_type,
                    range,
                    other,
                    other_id,
                    other_type,
                );
                lemma_merge_into_lookup(
                    ranges,
                    parent,
                    report_id,
                    report_type,
                    range,
                    parent,
                    other_id,
                    other_type,
                );
                lemma_merge_into_lookup(
                    ranges,
                    parent,
                    report_id,
                    report_type,
                    range,
                    child,
                    other_id,
                    other_type,
                );
            },
            None => {},
        }
    }
}

/// Adding the bits of the children of a collection to it gives the
/// collection the union of its bits and theirs, and changes no other
/// collection. `base` is a table that holds the same bits as `ranges` for
/// the collections at the depth of the children.
proof fn lemma_merge_children_lookup(
    nodes: Seq<LinkCollectionNode>,
    levels: Seq<i32>,
    base: Map<u64, BitRange>,
    ranges: Map<u64, BitRange>,
    parent: int,
    child: int,
    fuel: nat,
)
    requires
        nodes.len() == levels.len(),
        nodes.len() <= MAX_COLLECTIONS,
        0 <= parent < nodes.len(),
        spec_chain_is_level(nodes, levels, child, levels[parent] + 1, fuel),
        forall|other: int, report_id: int, report_type: ReportType|
            0 <= other < nodes.len() && 0 <= report_id < 256 && levels[other] == levels[parent] + 1
                ==> #[trigger] spec_lookup(ranges, other, report_id, report_type) == spec_lookup(
                base,
                other,
                report_id,
                report_type,
            ),
    ensures
        spec_merge_children(nodes, ranges, parent, child, fuel) is Some,
        forall|other: int, report_id: int, report_type: ReportType|
            0 <= other < nodes.len() && 0 <= report_id < 256 ==> #[trigger] spec_lookup(
                spec_merge_children(nodes, ranges, parent, child, fuel)->0,
                other,
                report_id,
                report_type,
            ) == if other == parent {
                spec_chain_union(
                    nodes,
                    base,
                    child,
                    report_id,
                    report_type,
                    fuel,
                    spec_lookup(ranges, parent, report_id, report_type),
                )
            } else {
                spec_lookup(ranges, other, report_id, report_type)
            },
    decreases fuel,
{
    if child != 0 {
        let after = spec_merge_child_keys(ranges, parent, child, 0);
        let next = nodes[child].next_sibling as int;
        assert forall|other: int, report_id: int, report_type: ReportType|
            0 <= other < nodes.len() && 0 <= report_id < 256 implies #[trigger] spec_lookup(
            after,
            other,
            report_id,
            report_type,
        ) == if other == parent {
            spec_union(
                spec_lookup(ranges, parent, report_id, report_type),
                spec_lookup(ranges, child, report_id, report_type),
            )
        } else {
            spec_lookup(ranges, other, report_id, report_type)
        } by {
            lemma_merge_child_keys_lookup(ranges, parent, child, 0, other, report_id, report_type);
        }
        lemma_merge_children_lookup(nodes, levels, base, after, parent, next, (fuel - 1) as nat);
    }
}

/// Where the table holds for each child the bits of the tree under it, the
/// union of the bits of the children is the union of the trees under them.
proof fn lemma_chain_union_is_children_range(
    nodes: Seq<LinkCollectionNode>,
    levels: Seq<i32>,
    direct: Map<u64, BitRange>,
    ranges: Map<u64, BitRange>,
    max_level: int,
    level: int,
    child: int,
    report_id: int,
    report_type: ReportType,
    fuel: nat,
    found: Option<BitRange>,
)
    requires
        nodes.len() == levels.len(),
        0 <= level < max_level,
        0 <= report_id < 256,
        fuel <= nodes.len(),
        spec_chain_is_level(nodes, levels, child, level + 1, fuel),
        spec_settled(nodes, levels, direct, ranges, max_level, level + 1),
    ensures
        spec_chain_union(nodes, ranges, child, report_id, report_type, fuel, found)
            == spec_children_range(
            nodes,
            direct,
            child,
            report_id,
            report_type,
            (max_level - level) as nat,
            fuel,
            found,
        ),
    decreases fuel,
{
    if child != 0 {
        let next = nodes[child].next_sibling as int;
        let held = spec_lookup(ranges, child, report_id, report_type);
        assert(held == spec_subtree_range(
            nodes,
            direct,
            child,
            report_id,
            report_type,
            (max_level - levels[child]) as nat,
        ));
        lemma_chain_union_is_children_range(
            nodes,
            levels,
            direct,
            ranges,
            max_level,
            level,
            next,
            report_id,
            report_type,
            (fuel - 1) as nat,
            spec_union(found, held),
        );
    }
}

/// Giving the collections at one depth the bits of their children changes
/// those collections from position `at` on, each to the union of its bits
/// and those of its children, and no other collection.
proof fn lemma_propagate_level_lookup(
    nodes: Seq<LinkCollectionNode>,
    levels: Seq<i32>,
    base: Map<u64, BitRange>,
    ranges: Map<u64, BitRange>,
    max_level: int,
    level: int,
    at: int,
)
    requires
        spec_is_layered(nodes, levels, max_level),
        0 <= at <= nodes.len(),
        forall|other: int, report_id: int, report_type: ReportType|
            0 <= other < nodes.len() && 0 <= report_id < 256 && levels[other] == level + 1
                ==> #[trigger] spec_lookup(ranges, other, report_id, report_type) == spec_lookup(
                base,
                other,
                report_id,
                report_type,
            ),
    ensures
        spec_propagate_level(nodes, levels, ranges, level, at) is Some,
        forall|other: int, report_id: int, report_type: ReportType|
            0 <= other < nodes.len() && 0 <= report_id < 256 ==> #[trigger] spec_lookup(
                spec_propagate_level(nodes, levels, ranges, level, at)->0,
                other,
                report_id,
                report_type,
            ) == if levels[other] == level && other >= at {
                spec_chain_union(
                    nodes,
                    base,
                    nodes[other].first_child as int,
                    report_id,
                    report_type,
                    nodes.len(),
                    spec_lookup(ranges, other, report_id, report_type),
                )
            } else {
                spec_lookup(ranges, other, report_id, report_type)
            },
    decreases nodes.len() - at,
{
    if at < nodes.len() {
        if levels[at] == level {
            let first = nodes[at].first_child as int;
            lemma_merge_children_lookup(nodes, levels, base, ranges, at, first, nodes.len());
            let after = spec_merge_children(nodes, ranges, at, first, nodes.len())->0;
            lemma_propagate_level_lookup(nodes, levels, base, after, max_level, level, at + 1);
        } else {
            lemma_propagate_level_lookup(nodes, levels, base, ranges, max_level, level, at + 1);
        }
    }
}

/// The propagation goes on from any depth that it has reached down to the
/// root.
proof fn lemma_propagate_settles(
    nodes: Seq<LinkCollectionNode>,
    levels: Seq<i32>,
    direct: Map<u64, BitRange>,
    ranges: Map<u64, BitRange>,
    max_level: int,
    level: int,
)
    requires
        spec_is_layered(nodes, levels, max_level),
        0 <= level <= max_level,
        spec_settled(nodes, levels, direct, ranges, max_level, level),
    ensures
        spec_propagate(nodes, levels, ranges, level) is Some,
        spec_settled(nodes, levels, direct, spec_propagate(nodes, levels, ranges, level)->0, max_level, 0),
    decreases level,
{
    if level > 0 {
        lemma_propagate_level_lookup(nodes, levels, ranges, ranges, max_level, level - 1, 0);
        let after = spec_propagate_level(nodes, levels, ranges, level - 1, 0)->0;
        assert forall|node: int, report_id: int, report_type: ReportType|
            0 <= node < nodes.len() && 0 <= report_id < 256 implies #[trigger] spec_lookup(
            after,
            node,
            report_id,
            report_type,
        ) == if levels[node] >= level - 1 {
            spec_subtree_range(
                nodes,
                direct,
                node,
                report_id,
                report_type,
                (max_level - levels[node]) as nat,
            )
        } else {
            spec_lookup(direct, node, report_id, report_type)
        } by {
            assert(spec_lookup(ranges, node, report_id, report_type) == if levels[node] >= level {
                spec_subtree_range(
                    nodes,
                    direct,
                    node,
                    report_id,
                    report_type,
                    (max_level - levels[node]) as nat,
                )
            } else {
                spec_lookup(direct, node, report_id, report_type)
            });
            if levels[node] == level - 1 {
                assert(spec_chain_is_level(
                    nodes,
                    levels,
                    nodes[node].first_child as int,
                    levels[node] + 1,
                    nodes.len(),
                ));
                lemma_chain_union_is_children_range(
                    nodes,
                    levels,
                    direct,
                    ranges,
                    max_level,
                    level - 1,
                    nodes[node].first_child as int,
                    report_id,
                    report_type,
                    nodes.len(),
                    spec_lookup(direct, node, report_id, report_type),
                );
            }
        }
        lemma_propagate_settles(nodes, levels, direct, after, max_level, level - 1);
    }
}

/// The propagation gives every collection the bits of the tree under it.
///
/// For a tree of collections whose depths are `levels`, none deeper than
/// `max_level`, and a table `direct` of the bits that the fields of each
/// collection occupy, the propagation succeeds, and the table that it
/// leaves holds for every collection, in every report, the union of the
/// bits of the collection and of all collections under it. For the root
/// that is the union over the whole tree.
pub proof fn lemma_propagation_covers_subtrees(
    nodes: Seq<LinkCollectionNode>,
    levels: Seq<i32>,
    direct: Map<u64, BitRange>,
    max_level: int,
    node: int,
    report_id: int,
    report_type: ReportType,
)
    requires
        spec_is_layered(nodes, levels, max_level),
        0 <= node < nodes.len(),
        0 <= report_id < 256,
    ensures
        spec_propagate(nodes, levels, direct, max_level) is Some,
        spec_lookup(
            spec_propagate(nodes, levels, direct, max_level)->0,
            node,
            report_id,
            report_type,
        ) == spec_subtree_range(
            nodes,
            direct,
            node,
            report_id,
            report_type,
            (max_level - levels[node]) as nat,
        ),
{
    assert(0 <= levels[node] <= max_level);
    assert forall|other: int, id: int, kind: ReportType|
        0 <= other < nodes.len() && 0 <= id < 256 && levels[other] >= max_level implies spec_lookup(
        direct,
        other,
        id,
        kind,
    ) == spec_subtree_range(nodes, direct, other, id, kind, (max_level - levels[other]) as nat) by {
        assert(levels[other] == max_level);
    }
    lemma_propagate_settles(nodes, levels, direct, direct, max_level, max_level);
}

} // verus!

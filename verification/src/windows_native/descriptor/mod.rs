//! Reconstruction of a HID report descriptor from preparsed data.
//!
//! The Windows HID stack does not hand out the report descriptor of a
//! device, only the preparsed data that it made from it: a header, one
//! capability record for each field of a report, and the tree of the
//! collections. The descriptor is made from these in two stages. The first
//! puts the collections and the fields into the order of the descriptor,
//! as a list of main items; the second writes that list as short items.

pub mod encoder;
pub mod layout;
pub mod ranges;
pub mod subtree;
pub mod tree;
pub mod typedefs;
pub mod types;

use vstd::prelude::*;
use crate::windows_native::descriptor::encoder::{encode_descriptor, spec_encode_descriptor};
use crate::windows_native::descriptor::layout::{
    add_padding,
    cap_items,
    collection_items,
    spec_cap_items,
    spec_collection_items,
    spec_padded,
};
use crate::windows_native::descriptor::ranges::{
    direct_ranges,
    propagate,
    spec_direct_ranges,
    spec_propagate,
    MAX_COLLECTIONS,
};
use crate::windows_native::descriptor::tree::{
    child_orders,
    spec_child_orders,
    spec_tree_shape,
    tree_shape,
};
use crate::windows_native::descriptor::typedefs::{
    Caps,
    HidpPreparsedData,
    LinkCollectionNode,
    CAPS_SIZE,
    HEADER_SIZE,
    LINK_COLLECTION_NODE_SIZE,
};
use crate::windows_native::descriptor::types::MainItemNode;
use crate::windows_native::error::WinError;
use crate::windows_native::hid::PreparsedData;

verus! {

/// Where the first link collection node stands in the preparsed data.
pub open spec fn spec_nodes_start(header: HidpPreparsedData) -> int {
    HEADER_SIZE + header.first_byte_of_link_collection_array
}

/// Whether `bytes` hold a whole block of preparsed data: the header with
/// its signature, the capability records that the header counts, and the
/// link collection nodes that it counts.
pub open spec fn spec_is_preparsed_data(bytes: Seq<u8>) -> bool {
    let header = HidpPreparsedData::spec_from_bytes(bytes);
    &&& bytes.len() >= HEADER_SIZE
    &&& header.spec_has_magic_key()
    &&& HEADER_SIZE + header.spec_caps_len() * CAPS_SIZE <= bytes.len()
    &&& spec_nodes_start(header) + header.number_link_collection_nodes * LINK_COLLECTION_NODE_SIZE
        <= bytes.len()
}

/// A block of preparsed data is whole exactly where it starts with the
/// signature and has the length that its header announces.
pub proof fn lemma_whole_block(bytes: Seq<u8>)
    ensures
        spec_is_preparsed_data(bytes) <==> {
            &&& bytes.len() >= HEADER_SIZE
            &&& HidpPreparsedData::spec_from_bytes(bytes).spec_has_magic_key()
            &&& bytes.len() >= HidpPreparsedData::spec_from_bytes(bytes).spec_block_len()
        },
{
}

/// The capability records of a block of preparsed data.
pub open spec fn spec_caps_of(bytes: Seq<u8>) -> Seq<Caps> {
    Seq::new(
        HidpPreparsedData::spec_from_bytes(bytes).spec_caps_len() as nat,
        |at: int| Caps::spec_from_bytes(bytes, HEADER_SIZE + at * CAPS_SIZE),
    )
}

/// The link collection nodes of a block of preparsed data.
pub open spec fn spec_nodes_of(bytes: Seq<u8>) -> Seq<LinkCollectionNode> {
    let header = HidpPreparsedData::spec_from_bytes(bytes);
    Seq::new(
        header.number_link_collection_nodes as nat,
        |at: int|
            LinkCollectionNode::spec_from_bytes(
                bytes,
                spec_nodes_start(header) + at * LINK_COLLECTION_NODE_SIZE,
            ),
    )
}

/// Reads the header, the capability records and the link collection nodes
/// from a block of preparsed data. The block is refused with
/// `InvalidPreparsedData` where it does not start with the signature or
/// ends before the last record that its header counts.
pub fn extract_structures(bytes: &[u8]) -> (result: Result<
    (HidpPreparsedData, Vec<Caps>, Vec<LinkCollectionNode>),
    WinError,
>)
    ensures
        spec_is_preparsed_data(bytes@) ==> {
            &&& result is Ok
            &&& result->Ok_0.0 == HidpPreparsedData::spec_from_bytes(bytes@)
            &&& result->Ok_0.1@ == spec_caps_of(bytes@)
            &&& result->Ok_0.2@ == spec_nodes_of(bytes@)
        },
        !spec_is_preparsed_data(bytes@) ==> result == Err::<
            (HidpPreparsedData, Vec<Caps>, Vec<LinkCollectionNode>),
            WinError,
        >(WinError::InvalidPreparsedData),
{
    if bytes.len() < HEADER_SIZE {
        return Err(WinError::InvalidPreparsedData);
    }
    let header = HidpPreparsedData::from_bytes(bytes);
    if !header.has_magic_key() {
        return Err(WinError::InvalidPreparsedData);
    }
    let caps_len = header.caps_len();
    let nodes_start = HEADER_SIZE + header.first_byte_of_link_collection_array as usize;
    let nodes_len = header.number_link_collection_nodes as usize;
    if bytes.len() - HEADER_SIZE < caps_len * CAPS_SIZE || bytes.len() < nodes_start || bytes.len()
        - nodes_start < nodes_len * LINK_COLLECTION_NODE_SIZE {
        return Err(WinError::InvalidPreparsedData);
    }
    let mut caps_list: Vec<Caps> = Vec::new();
    let mut at: usize = 0;
    while at < caps_len
        invariant
            at <= caps_len,
            caps_len == header.spec_caps_len(),
            header == HidpPreparsedData::spec_from_bytes(bytes@),
            HEADER_SIZE + caps_len * CAPS_SIZE <= bytes.len(),
            caps_list@.len() == at,
            forall|i: int|
                0 <= i < at ==> (#[trigger] caps_list@[i]) == Caps::spec_from_bytes(
                    bytes@,
                    HEADER_SIZE + i * CAPS_SIZE,
                ),
        decreases caps_len - at,
    {
        caps_list.push(Caps::from_bytes(bytes, HEADER_SIZE + at * CAPS_SIZE));
        at = at + 1;
    }
    let mut nodes: Vec<LinkCollectionNode> = Vec::new();
    let mut at: usize = 0;
    while at < nodes_len
        invariant
            at <= nodes_len,
            nodes_len == header.number_link_collection_nodes,
            nodes_start == spec_nodes_start(header),
            header == HidpPreparsedData::spec_from_bytes(bytes@),
            nodes_start + nodes_len * LINK_COLLECTION_NODE_SIZE <= bytes.len(),
            nodes@.len() == at,
            forall|i: int|
                0 <= i < at ==> (#[trigger] nodes@[i]) == LinkCollectionNode::spec_from_bytes(
                    bytes@,
                    nodes_start + i * LINK_COLLECTION_NODE_SIZE,
                ),
        decreases nodes_len - at,
    {
        nodes.push(
            LinkCollectionNode::from_bytes(bytes, nodes_start + at * LINK_COLLECTION_NODE_SIZE),
        );
        at = at + 1;
    }
    assert(caps_list@ =~= spec_caps_of(bytes@));
    assert(nodes@ =~= spec_nodes_of(bytes@));
    Ok((header, caps_list, nodes))
}

/// The main item list of a device: the bits of each collection in each
/// report, the shape of the tree, the order of the children, the list of
/// the collections, the fields between them, and the padding. There is no
/// list where one of these has no result.
pub open spec fn spec_reconstruct_descriptor(
    header: HidpPreparsedData,
    caps_list: Seq<Caps>,
    link_collection_nodes: Seq<LinkCollectionNode>,
) -> Option<Seq<MainItemNode>> {
    if link_collection_nodes.len() > MAX_COLLECTIONS {
        None
    } else {
        match (spec_direct_ranges(header, caps_list), spec_tree_shape(link_collection_nodes)) {
            (Some(direct), Some(shape)) => match spec_propagate(
                link_collection_nodes,
                shape.levels,
                direct,
                shape.max_level as int,
            ) {
                None => None,
                Some(ranges) => match spec_child_orders(
                    link_collection_nodes,
                    shape.child_counts,
                    ranges,
                ) {
                    None => None,
                    Some(orders) => match spec_collection_items(link_collection_nodes, orders) {
                        None => None,
                        Some(list) => match spec_cap_items(
                            list,
                            header,
                            caps_list,
                            orders,
                            ranges,
                        ) {
                            None => None,
                            Some(list) => spec_padded(list),
                        },
                    },
                },
            },
            _ => None,
        }
    }
}

/// Puts the collections and the fields of a device into the order of its
/// report descriptor: see [`spec_reconstruct_descriptor`].
///
/// The records are refused with `InvalidPreparsedData` where they do not
/// describe a device: where the header counts capabilities that are not in
/// the array, where a field lies outside of 16-bit bit positions, where the
/// links of the tree lead out of the array or in a circle, or where a field
/// belongs to a collection that the tree does not reach.
pub fn reconstruct_descriptor(
    header: HidpPreparsedData,
    caps_list: &[Caps],
    link_collection_nodes: &[LinkCollectionNode],
) -> (result: Result<Vec<MainItemNode>, WinError>)
    ensures
        match spec_reconstruct_descriptor(header, caps_list@, link_collection_nodes@) {
            Some(list) => result is Ok && result->Ok_0@ == list,
            None => result == Err::<Vec<MainItemNode>, WinError>(WinError::InvalidPreparsedData),
        },
{
    if link_collection_nodes.len() > MAX_COLLECTIONS {
        return Err(WinError::InvalidPreparsedData);
    }
    let mut table = match direct_ranges(&header, caps_list) {
        None => { return Err(WinError::InvalidPreparsedData); },
        Some(table) => table,
    };
    let shape = match tree_shape(link_collection_nodes) {
        None => { return Err(WinError::InvalidPreparsedData); },
        Some(shape) => shape,
    };
    if !propagate(&mut table, link_collection_nodes, &shape.levels, shape.max_level) {
        return Err(WinError::InvalidPreparsedData);
    }
    let orders = match child_orders(link_collection_nodes, &shape.child_counts, &table) {
        None => { return Err(WinError::InvalidPreparsedData); },
        Some(orders) => orders,
    };
    let mut list = match collection_items(link_collection_nodes, &orders) {
        None => { return Err(WinError::InvalidPreparsedData); },
        Some(list) => list,
    };
    if !cap_items(&mut list, &header, caps_list, &orders, &table) {
        return Err(WinError::InvalidPreparsedData);
    }
    if !add_padding(&mut list) {
        return Err(WinError::InvalidPreparsedData);
    }
    Ok(list)
}

/// The report descriptor that a block of preparsed data stands for.
pub open spec fn spec_descriptor_of(bytes: Seq<u8>) -> Option<Seq<u8>> {
    if !spec_is_preparsed_data(bytes) {
        None
    } else {
        match spec_reconstruct_descriptor(
            HidpPreparsedData::spec_from_bytes(bytes),
            spec_caps_of(bytes),
            spec_nodes_of(bytes),
        ) {
            None => None,
            Some(list) => spec_encode_descriptor(list, spec_caps_of(bytes), spec_nodes_of(bytes)),
        }
    }
}

/// Reconstructs the report descriptor of a device from its preparsed data:
/// the records are read from the block, put into the order of the
/// descriptor, and written as short items. A block that is not preparsed
/// data, or whose records do not describe a device, is refused with
/// `InvalidPreparsedData`.
pub fn get_descriptor(pp_data: &PreparsedData) -> (result: Result<Vec<u8>, WinError>)
    ensures
        match spec_descriptor_of(pp_data@) {
            Some(descriptor) => result is Ok && result->Ok_0@ == descriptor,
            None => result == Err::<Vec<u8>, WinError>(WinError::InvalidPreparsedData),
        },
{
    let (header, caps_list, link_collection_nodes) = match extract_structures(pp_data.as_bytes()) {
        Err(_) => { return Err(WinError::InvalidPreparsedData); },
        Ok(structures) => structures,
    };
    let list = match reconstruct_descriptor(
        header,
        caps_list.as_slice(),
        link_collection_nodes.as_slice(),
    ) {
        Err(_) => { return Err(WinError::InvalidPreparsedData); },
        Ok(list) => list,
    };
    encode_descriptor(list.as_slice(), caps_list.as_slice(), link_collection_nodes.as_slice())
}

} // verus!

//! The vocabulary of the descriptor reconstruction: report types, item tags,
//! bit ranges and the nodes of the main item list.

use vstd::prelude::*;

verus! {

/// The three kinds of report a device exchanges.
#[derive(Copy, Clone, Debug, PartialEq, Eq, Hash, Structural)]
pub enum ReportType {
    Input,
    Output,
    Feature,
}

impl ReportType {
    /// The position of the report type in the tables of the preparsed data.
    pub open spec fn spec_index(self) -> int {
        match self {
            ReportType::Input => 0,
            ReportType::Output => 1,
            ReportType::Feature => 2,
        }
    }

    /// The position of the report type in the tables of the preparsed data.
    pub fn index(self) -> (i: usize)
        ensures
            i == self.spec_index(),
    {
        match self {
            ReportType::Input => 0,
            ReportType::Output => 1,
            ReportType::Feature => 2,
        }
    }

    /// All report types, in the order of their indices.
    pub fn values() -> (all: [ReportType; 3])
        ensures
            all@ == seq![ReportType::Input, ReportType::Output, ReportType::Feature],
    {
        [ReportType::Input, ReportType::Output, ReportType::Feature]
    }
}

/// A closed range of bit positions inside one report.
#[derive(Copy, Clone, Debug, Default, PartialEq, Eq, Structural)]
pub struct BitRange {
    pub first_bit: u16,
    pub last_bit: u16,
}

impl BitRange {
    /// The smallest range that covers both ranges.
    pub open spec fn spec_merge(self, other: BitRange) -> BitRange {
        BitRange {
            first_bit: if self.first_bit <= other.first_bit {
                self.first_bit
            } else {
                other.first_bit
            },
            last_bit: if self.last_bit >= other.last_bit {
                self.last_bit
            } else {
                other.last_bit
            },
        }
    }

    /// The smallest range that covers both ranges.
    pub fn merge(self, other: BitRange) -> (merged: BitRange)
        ensures
            merged == self.spec_merge(other),
    {
        BitRange {
            first_bit: if self.first_bit <= other.first_bit {
                self.first_bit
            } else {
                other.first_bit
            },
            last_bit: if self.last_bit >= other.last_bit {
                self.last_bit
            } else {
                other.last_bit
            },
        }
    }
}

/// The tags of the short items that a report descriptor is made of. The tag
/// is the prefix byte of the item with the two size bits cleared.
#[derive(Copy, Clone, Debug, PartialEq, Eq, Structural)]
pub enum Items {
    MainInput,
    MainOutput,
    MainFeature,
    MainCollection,
    MainCollectionEnd,
    GlobalUsagePage,
    GlobalLogicalMinimum,
    GlobalLogicalMaximum,
    GlobalPhysicalMinimum,
    GlobalPhysicalMaximum,
    GlobalUnitExponent,
    GlobalUnit,
    GlobalReportSize,
    GlobalReportId,
    GlobalReportCount,
    GlobalPush,
    GlobalPop,
    LocalUsage,
    LocalUsageMinimum,
    LocalUsageMaximum,
    LocalDesignatorIndex,
    LocalDesignatorMinimum,
    LocalDesignatorMaximum,
    LocalString,
    LocalStringMinimum,
    LocalStringMaximum,
    LocalDelimiter,
}

impl Items {
    /// The prefix byte of the item with the size bits cleared.
    pub open spec fn spec_tag(self) -> u8 {
        match self {
            Items::MainInput => 0x80,
            Items::MainOutput => 0x90,
            Items::MainFeature => 0xB0,
            Items::MainCollection => 0xA0,
            Items::MainCollectionEnd => 0xC0,
            Items::GlobalUsagePage => 0x04,
            Items::GlobalLogicalMinimum => 0x14,
            Items::GlobalLogicalMaximum => 0x24,
            Items::GlobalPhysicalMinimum => 0x34,
            Items::GlobalPhysicalMaximum => 0x44,
            Items::GlobalUnitExponent => 0x54,
            Items::GlobalUnit => 0x64,
            Items::GlobalReportSize => 0x74,
            Items::GlobalReportId => 0x84,
            Items::GlobalReportCount => 0x94,
            Items::GlobalPush => 0xA4,
            Items::GlobalPop => 0xB4,
            Items::LocalUsage => 0x08,
            Items::LocalUsageMinimum => 0x18,
            Items::LocalUsageMaximum => 0x28,
            Items::LocalDesignatorIndex => 0x38,
            Items::LocalDesignatorMinimum => 0x48,
            Items::LocalDesignatorMaximum => 0x58,
            Items::LocalString => 0x78,
            Items::LocalStringMinimum => 0x88,
            Items::LocalStringMaximum => 0x98,
            Items::LocalDelimiter => 0xA8,
        }
    }

    /// The prefix byte of the item with the size bits cleared.
    pub fn tag(self) -> (t: u8)
        ensures
            t == self.spec_tag(),
            t % 4 == 0,
            t <= 0xC0,
    {
        match self {
            Items::MainInput => 0x80,
            Items::MainOutput => 0x90,
            Items::MainFeature => 0xB0,
            Items::MainCollection => 0xA0,
            Items::MainCollectionEnd => 0xC0,
            Items::GlobalUsagePage => 0x04,
            Items::GlobalLogicalMinimum => 0x14,
            Items::GlobalLogicalMaximum => 0x24,
            Items::GlobalPhysicalMinimum => 0x34,
            Items::GlobalPhysicalMaximum => 0x44,
            Items::GlobalUnitExponent => 0x54,
            Items::GlobalUnit => 0x64,
            Items::GlobalReportSize => 0x74,
            Items::GlobalReportId => 0x84,
            Items::GlobalReportCount => 0x94,
            Items::GlobalPush => 0xA4,
            Items::GlobalPop => 0xB4,
            Items::LocalUsage => 0x08,
            Items::LocalUsageMinimum => 0x18,
            Items::LocalUsageMaximum => 0x28,
            Items::LocalDesignatorIndex => 0x38,
            Items::LocalDesignatorMinimum => 0x48,
            Items::LocalDesignatorMaximum => 0x58,
            Items::LocalString => 0x78,
            Items::LocalStringMinimum => 0x88,
            Items::LocalStringMaximum => 0x98,
            Items::LocalDelimiter => 0xA8,
        }
    }

    /// Whether the item carries a signed value: the logical and physical
    /// bounds do, every other item carries an unsigned one.
    pub open spec fn spec_is_signed(self) -> bool {
        self == Items::GlobalLogicalMinimum || self == Items::GlobalLogicalMaximum || self
            == Items::GlobalPhysicalMinimum || self == Items::GlobalPhysicalMaximum
    }

    /// Whether the item carries a signed value.
    pub fn is_signed(self) -> (signed: bool)
        ensures
            signed == self.spec_is_signed(),
    {
        match self {
            Items::GlobalLogicalMinimum
            | Items::GlobalLogicalMaximum
            | Items::GlobalPhysicalMinimum
            | Items::GlobalPhysicalMaximum => true,
            _ => false,
        }
    }
}

/// What a node of the main item list stands for in the descriptor.
#[derive(Copy, Clone, Debug, PartialEq, Eq, Hash, Structural)]
pub enum MainItems {
    Input,
    Output,
    Feature,
    Collection,
    CollectionEnd,
    DelimiterOpen,
    DelimiterUsage,
    DelimiterClose,
}

impl MainItems {
    /// The report type of an Input, Output or Feature item.
    pub open spec fn spec_report_type(self) -> Option<ReportType> {
        match self {
            MainItems::Input => Some(ReportType::Input),
            MainItems::Output => Some(ReportType::Output),
            MainItems::Feature => Some(ReportType::Feature),
            _ => None,
        }
    }

    /// The report type of an Input, Output or Feature item, and nothing for
    /// the collection and delimiter items.
    pub fn report_type(self) -> (rt: Option<ReportType>)
        ensures
            rt == self.spec_report_type(),
    {
        match self {
            MainItems::Input => Some(ReportType::Input),
            MainItems::Output => Some(ReportType::Output),
            MainItems::Feature => Some(ReportType::Feature),
            _ => None,
        }
    }

    /// The main item that carries the fields of a report type.
    pub open spec fn spec_from_report_type(value: ReportType) -> MainItems {
        match value {
            ReportType::Input => MainItems::Input,
            ReportType::Output => MainItems::Output,
            ReportType::Feature => MainItems::Feature,
        }
    }
}

impl From<ReportType> for MainItems {
    fn from(value: ReportType) -> (item: MainItems) {
        match value {
            ReportType::Input => MainItems::Input,
            ReportType::Output => MainItems::Output,
            ReportType::Feature => MainItems::Feature,
        }
    }
}

impl vstd::std_specs::convert::FromSpecImpl<ReportType> for MainItems {
    open spec fn obeys_from_spec() -> bool {
        true
    }

    open spec fn from_spec(value: ReportType) -> MainItems {
        MainItems::spec_from_report_type(value)
    }
}

/// The kind of a node of the main item list.
#[derive(Copy, Clone, Debug, PartialEq, Eq, Structural)]
pub enum ItemNodeType {
    Cap,
    Padding,
    Collection,
}

/// One node of the main item list: a field of a report, a run of padding
/// bits, or the start or end of a collection or of a set of aliased usages.
#[derive(Copy, Clone, Debug, PartialEq, Eq, Structural)]
pub struct MainItemNode {
    /// Position of the first bit of the field in its report.
    pub first_bit: u16,
    /// Position of the last bit of the field in its report.
    pub last_bit: u16,
    pub node_type: ItemNodeType,
    /// Index of the capability that the node was made from, -1 where there
    /// is none.
    pub caps_index: i32,
    /// Index of the link collection that the node belongs to.
    pub collection_index: usize,
    pub main_item_type: MainItems,
    pub report_id: u8,
}

impl MainItemNode {
    pub fn new(
        first_bit: u16,
        last_bit: u16,
        node_type: ItemNodeType,
        caps_index: i32,
        collection_index: usize,
        main_item_type: MainItems,
        report_id: u8,
    ) -> (node: MainItemNode)
        ensures
            node == (MainItemNode {
                first_bit,
                last_bit,
                node_type,
                caps_index,
                collection_index,
                main_item_type,
                report_id,
            }),
    {
        MainItemNode {
            first_bit,
            last_bit,
            node_type,
            caps_index,
            collection_index,
            main_item_type,
            report_id,
        }
    }
}

} // verus!

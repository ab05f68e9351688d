//! The back end that finds devices in the device tree of udev and talks to
//! them through their hidraw nodes: what it makes of the properties it
//! reads, how it scans a report descriptor for usages, and what it decides
//! around its system calls.

use vstd::prelude::*;
pub use crate::device_info::{copy_descriptor, find_device, matches_filter};
use crate::device_info::{
    spec_info_views,
    spec_matches_filter,
    BusType,
    DeviceInfo,
    DeviceInfoView,
    WcharString,
    WcharText,
};
use vstd::string::StringExecFns;
pub use crate::error::check_report_data;
use crate::error::{HidError, HidResult};
use crate::text::{
    chars_of,
    decimal_text,
    parse_hex,
    parse_hex_i32,
    parse_hex_u16,
    spec_decimal_digits,
    spec_hex_bounded,
    spec_hex_digit,
    spec_hex_value_from,
    spec_signed_hex,
};

verus! {

/// The bus numbers of the kernel.
pub const BUS_USB: u16 = 0x03;

pub const BUS_BLUETOOTH: u16 = 0x05;

pub const BUS_I2C: u16 = 0x18;

pub const BUS_SPI: u16 = 0x1C;

/// The ioctl numbers of hidraw: the magic byte `H`, and the numbers of the
/// calls for the size of the descriptor and for feature reports.
pub const HIDRAW_IOC_MAGIC: u8 = 0x48;

pub const HIDRAW_IOC_GRDESCSIZE: u8 = 0x01;

pub const HIDRAW_SET_FEATURE: u8 = 0x06;

pub const HIDRAW_GET_FEATURE: u8 = 0x07;

/// The bus with a bus number of the kernel; none for the buses that carry
/// no HID devices known here.
pub open spec fn spec_bus_type_of(bus: u16) -> Option<BusType> {
    if bus == BUS_USB {
        Some(BusType::Usb)
    } else if bus == BUS_BLUETOOTH {
        Some(BusType::Bluetooth)
    } else if bus == BUS_I2C {
        Some(BusType::I2c)
    } else if bus == BUS_SPI {
        Some(BusType::Spi)
    } else {
        None
    }
}

pub fn bus_type_of(bus: u16) -> (bus_type: Option<BusType>)
    ensures
        bus_type == spec_bus_type_of(bus),
{
    if bus == BUS_USB {
        Some(BusType::Usb)
    } else if bus == BUS_BLUETOOTH {
        Some(BusType::Bluetooth)
    } else if bus == BUS_I2C {
        Some(BusType::I2c)
    } else if bus == BUS_SPI {
        Some(BusType::Spi)
    } else {
        None
    }
}

/// The first position from `from` on at which `text` holds a colon, and the
/// length of `text` where there is none.
pub open spec fn spec_colon_from(text: Seq<char>, from: int) -> int
    decreases text.len() - from,
{
    if from < 0 || from >= text.len() {
        text.len() as int
    } else if text[from] == ':' {
        from
    } else {
        spec_colon_from(text, from + 1)
    }
}

/// The bus, vendor id and product id that a `HID_ID` text names. The text
/// is of the form `H1:H2:H3`: three fields with two colons between them,
/// each field a hexadecimal number that 16 bits hold, with any number of
/// leading zeros.
pub open spec fn spec_parse_hid_vid_pid(text: Seq<char>) -> Option<(u16, u16, u16)> {
    let first = spec_colon_from(text, 0);
    let second = spec_colon_from(text, first + 1);
    if first >= text.len() || second >= text.len() || spec_colon_from(text, second + 1)
        < text.len() {
        None
    } else {
        match (
            spec_hex_bounded(text.subrange(0, first), 0xffff),
            spec_hex_bounded(text.subrange(first + 1, second), 0xffff),
            spec_hex_bounded(text.subrange(second + 1, text.len() as int), 0xffff),
        ) {
            (Some(bus), Some(vendor), Some(product)) => Some(
                (bus as u16, vendor as u16, product as u16),
            ),
            _ => None,
        }
    }
}

fn colon_from(chars: &[char], from: usize) -> (at: usize)
    requires
        from <= chars.len(),
    ensures
        at == spec_colon_from(chars@, from as int),
        from <= at <= chars.len(),
{
    let mut at: usize = from;
    while at < chars.len()
        invariant
            from <= at <= chars.len(),
            spec_colon_from(chars@, from as int) == spec_colon_from(chars@, at as int),
        decreases chars.len() - at,
    {
        if chars[at] == ':' {
            return at;
        }
        at = at + 1;
    }
    at
}

/// Reads the bus, the vendor id and the product id from a `HID_ID` text:
/// see [`spec_parse_hid_vid_pid`]. There is no result for any other text.
pub fn parse_hid_vid_pid(s: &str) -> (ids: Option<(u16, u16, u16)>)
    ensures
        ids == spec_parse_hid_vid_pid(s@),
{
    let chars = chars_of(s);
    let text = chars.as_slice();
    let first = colon_from(text, 0);
    if first >= text.len() {
        return None;
    }
    let second = colon_from(text, first + 1);
    if second >= text.len() {
        return None;
    }
    if colon_from(text, second + 1) < text.len() {
        return None;
    }
    let bus = match parse_hex(text, 0, first, 0xffff) {
        None => { return None; },
        Some(bus) => bus,
    };
    let vendor = match parse_hex(text, first + 1, second, 0xffff) {
        None => { return None; },
        Some(vendor) => vendor,
    };
    let product = match parse_hex(text, second + 1, text.len(), 0xffff) {
        None => { return None; },
        Some(product) => product,
    };
    Some((bus as u16, vendor as u16, product as u16))
}

/// A text that is a hexadecimal number holds no colon.
proof fn lemma_hex_holds_no_colon(text: Seq<char>, at: int, value: int, position: int)
    requires
        spec_hex_value_from(text, at, value) is Some,
        0 <= at <= position < text.len(),
    ensures
        text[position] != ':',
    decreases text.len() - at,
{
    if at < position {
        let digit = spec_hex_digit(text[at] as u32)->0;
        lemma_hex_holds_no_colon(text, at + 1, value * 16 + digit, position);
    } else {
        assert(spec_hex_digit(text[at] as u32) is Some);
        assert(':' as u32 == 0x3A);
    }
}

/// The search for a colon ends at `end` where no colon stands before it
/// and one stands there, or the text ends there.
proof fn lemma_colon_found(text: Seq<char>, from: int, end: int)
    requires
        0 <= from <= end <= text.len(),
        forall|at: int| from <= at < end ==> text[at] != ':',
        end < text.len() ==> text[end] == ':',
    ensures
        spec_colon_from(text, from) == end,
    decreases end - from,
{
    if from < end {
        lemma_colon_found(text, from + 1, end);
    }
}

/// Every text of the form `H1:H2:H3` is read as the three numbers that its
/// fields write: for three hexadecimal numbers that 16 bits hold, the text
/// made of them with a colon between each two gives the first as the bus,
/// the second as the vendor id and the third as the product id.
pub proof fn lemma_parse_reads_three_fields(bus: Seq<char>, vendor: Seq<char>, product: Seq<char>)
    requires
        spec_hex_bounded(bus, 0xffff) is Some,
        spec_hex_bounded(vendor, 0xffff) is Some,
        spec_hex_bounded(product, 0xffff) is Some,
    ensures
        spec_parse_hid_vid_pid(bus + seq![':'] + vendor + seq![':'] + product) == Some(
            (
                spec_hex_bounded(bus, 0xffff)->0 as u16,
                spec_hex_bounded(vendor, 0xffff)->0 as u16,
                spec_hex_bounded(product, 0xffff)->0 as u16,
            ),
        ),
{
    let text = bus + seq![':'] + vendor + seq![':'] + product;
    let first = bus.len() as int;
    let second = first + 1 + vendor.len();
    assert forall|at: int| 0 <= at < first implies text[at] != ':' by {
        lemma_hex_holds_no_colon(bus, 0, 0, at);
    }
    assert forall|at: int| first + 1 <= at < second implies text[at] != ':' by {
        lemma_hex_holds_no_colon(vendor, 0, 0, at - first - 1);
    }
    assert forall|at: int| second + 1 <= at < text.len() implies text[at] != ':' by {
        lemma_hex_holds_no_colon(product, 0, 0, at - second - 1);
    }
    lemma_colon_found(text, 0, first);
    lemma_colon_found(text, first + 1, second);
    lemma_colon_found(text, second + 1, text.len() as int);
    assert(text.subrange(0, first) =~= bus);
    assert(text.subrange(first + 1, second) =~= vendor);
    assert(text.subrange(second + 1, text.len() as int) =~= product);
}

/// Only a text of the form `H1:H2:H3` is read: a text that gives a bus, a
/// vendor id and a product id is made of three hexadecimal numbers that 16
/// bits hold, with a colon between each two.
pub proof fn lemma_parse_reads_only_three_fields(text: Seq<char>)
    requires
        spec_parse_hid_vid_pid(text) is Some,
    ensures
        exists|bus: Seq<char>, vendor: Seq<char>, product: Seq<char>|
            {
                &&& text == bus + seq![':'] + vendor + seq![':'] + product
                &&& #[trigger] spec_triple(
                    spec_hex_bounded(bus, 0xffff),
                    spec_hex_bounded(vendor, 0xffff),
                    spec_hex_bounded(product, 0xffff),
                ) == spec_parse_hid_vid_pid(text)
            },
{
    let first = spec_colon_from(text, 0);
    let second = spec_colon_from(text, first + 1);
    lemma_colon_is_colon(text, 0);
    lemma_colon_is_colon(text, first + 1);
    let bus = text.subrange(0, first);
    let vendor = text.subrange(first + 1, second);
    let product = text.subrange(second + 1, text.len() as int);
    assert(text =~= bus + seq![':'] + vendor + seq![':'] + product);
    assert(spec_triple(
        spec_hex_bounded(bus, 0xffff),
        spec_hex_bounded(vendor, 0xffff),
        spec_hex_bounded(product, 0xffff),
    ) == spec_parse_hid_vid_pid(text));
}

/// The three ids that three numbers give, where each of them is there.
pub open spec fn spec_triple(bus: Option<int>, vendor: Option<int>, product: Option<int>) -> Option<
    (u16, u16, u16),
> {
    match (bus, vendor, product) {
        (Some(bus), Some(vendor), Some(product)) => Some(
            (bus as u16, vendor as u16, product as u16),
        ),
        _ => None,
    }
}

/// The search for a colon ends at a colon or at the end of the text, and
/// not before the position at which it starts.
proof fn lemma_colon_is_colon(text: Seq<char>, from: int)
    requires
        0 <= from,
    ensures
        from <= spec_colon_from(text, from) || spec_colon_from(text, from) == text.len(),
        spec_colon_from(text, from) <= text.len(),
        spec_colon_from(text, from) < text.len() ==> text[spec_colon_from(text, from)] == ':',
    decreases text.len() - from,
{
    if from < text.len() && text[from] != ':' {
        lemma_colon_is_colon(text, from + 1);
    }
}

/// The tag of an item: its prefix byte with the two size bits cleared.
pub open spec fn spec_item_tag(key: u8) -> int {
    key - key % 4
}

/// The number of data bytes and the number of header bytes of the item
/// whose prefix byte `key` stands before position `at`. A short item has
/// one header byte and 0, 1, 2 or 4 data bytes by its size code; a long
/// item, with the four high bits of the prefix set, has three header bytes
/// and as many data bytes as the byte at `at` says. There is none for a long
/// item without that byte.
pub open spec fn spec_hid_item_size(key: u8, bytes: Seq<u8>, at: int) -> Option<(int, int)> {
    if key >= 0xf0 {
        if 0 <= at < bytes.len() {
            Some((bytes[at] as int, 3))
        } else {
            None
        }
    } else if key % 4 == 3 {
        Some((4, 1))
    } else {
        Some(((key % 4) as int, 1))
    }
}

/// Gets the size of the item whose prefix byte `key` stands before position
/// `at`: see [`spec_hid_item_size`].
pub fn hid_item_size(key: u8, bytes: &[u8], at: usize) -> (size: Option<(usize, usize)>)
    ensures
        match spec_hid_item_size(key, bytes@, at as int) {
            Some((data_len, key_size)) => size == Some((data_len as usize, key_size as usize))
                && 0 <= data_len <= 255 && 1 <= key_size <= 3,
            None => size is None,
        },
{
    if key >= 0xf0 {
        if at < bytes.len() {
            return Some((bytes[at] as usize, 3));
        }
        return None;
    }
    if key % 4 == 3 {
        Some((4, 1))
    } else {
        Some(((key % 4) as usize, 1))
    }
}

/// The number that the `num_bytes` bytes from position `at` store, low byte
/// first, for 0, 1, 2 or 4 bytes; none where the bytes end before.
pub open spec fn spec_hid_report_bytes(bytes: Seq<u8>, at: int, num_bytes: int) -> Option<u32> {
    if at < 0 || at + num_bytes > bytes.len() {
        None
    } else if num_bytes == 0 {
        Some(0)
    } else if num_bytes == 1 {
        Some(bytes[at] as u32)
    } else if num_bytes == 2 {
        Some((bytes[at] as int + 0x100 * (bytes[at + 1] as int)) as u32)
    } else {
        Some(
            (bytes[at] as int + 0x100 * (bytes[at + 1] as int) + 0x1_0000 * (bytes[at + 2] as int)
                + 0x100_0000 * (bytes[at + 3] as int)) as u32,
        )
    }
}

/// Gets the data of a short item: see [`spec_hid_report_bytes`].
pub fn hid_report_bytes(bytes: &[u8], at: usize, num_bytes: usize) -> (value: Option<u32>)
    requires
        num_bytes == 0 || num_bytes == 1 || num_bytes == 2 || num_bytes == 4,
    ensures
        value == spec_hid_report_bytes(bytes@, at as int, num_bytes as int),
{
    if at > bytes.len() || bytes.len() - at < num_bytes {
        return None;
    }
    if num_bytes == 0 {
        Some(0)
    } else if num_bytes == 1 {
        Some(bytes[at] as u32)
    } else if num_bytes == 2 {
        Some(bytes[at] as u32 + 0x100 * (bytes[at + 1] as u32))
    } else {
        Some(
            bytes[at] as u32 + 0x100 * (bytes[at + 1] as u32) + 0x1_0000 * (bytes[at + 2] as u32)
                + 0x100_0000 * (bytes[at + 3] as u32),
        )
    }
}

/// The pairs of usage page and usage that a scan of a report descriptor
/// finds from position `at` on, behind the pairs `found` that it has.
///
/// The scan goes from item to item. It keeps the usage page that the last
/// Usage Page item set (tag 0x04), and the usage that the last Usage item
/// set (tag 0x08), each taken as the low 16 bits of the data of the item. A
/// Collection item (tag 0xA0) adds the pair of the two to the pairs, if
/// there is a usage; the Collection, Input, Output, Feature and End
/// Collection items (tags 0xA0, 0x80, 0x90, 0xB0, 0xC0) put the usage away.
/// At the end of the descriptor, and at a Usage Page or Usage item whose
/// data the descriptor does not hold, the scan ends: where it has found no
/// pair and there is a usage, the pair of the usage page and that usage is
/// the one pair of the descriptor. At a long item without its length byte
/// the scan ends with the pairs it has.
pub open spec fn spec_usages_from(
    bytes: Seq<u8>,
    at: int,
    usage_page: u16,
    usage: Option<u16>,
    found: Seq<(u16, u16)>,
) -> Seq<(u16, u16)>
    decreases
            (if at < bytes.len() {
                bytes.len() - at
            } else {
                0
            }),
{
    let at_end = if found.len() == 0 && usage is Some {
        found.push((usage_page, usage->0))
    } else {
        found
    };
    if at < 0 || at >= bytes.len() {
        at_end
    } else {
        match spec_hid_item_size(bytes[at], bytes, at + 1) {
            None => found,
            Some((data_len, key_size)) => {
                let tag = spec_item_tag(bytes[at]);
                let next = at + data_len + key_size;
                if tag == 0x04 || tag == 0x08 {
                    match spec_hid_report_bytes(bytes, at + 1, data_len) {
                        None => at_end,
                        Some(value) => if tag == 0x04 {
                            spec_usages_from(bytes, next, (value % 0x1_0000) as u16, usage, found)
                        } else {
                            spec_usages_from(
                                bytes,
                                next,
                                usage_page,
                                Some((value % 0x1_0000) as u16),
                                found,
                            )
                        },
                    }
                } else if tag == 0xa0 {
                    spec_usages_from(
                        bytes,
                        next,
                        usage_page,
                        None,
                        if usage is Some {
                            found.push((usage_page, usage->0))
                        } else {
                            found
                        },
                    )
                } else if tag == 0x80 || tag == 0x90 || tag == 0xb0 || tag == 0xc0 {
                    spec_usages_from(bytes, next, usage_page, None, found)
                } else {
                    spec_usages_from(bytes, next, usage_page, usage, found)
                }
            },
        }
    }
}

/// The pairs of usage page and usage of a report descriptor: the pairs that
/// its collections declare, in their order, and the one pair of a
/// descriptor that declares a usage and no collection.
pub open spec fn spec_usages(bytes: Seq<u8>) -> Seq<(u16, u16)> {
    spec_usages_from(bytes, 0, 0, None, Seq::empty())
}

/// The report descriptor of a hidraw device, as the kernel hands it out.
pub struct HidrawReportDescriptor(pub Vec<u8>);

impl View for HidrawReportDescriptor {
    type V = Seq<u8>;

    open spec fn view(&self) -> Seq<u8> {
        self.0@
    }
}

impl HidrawReportDescriptor {
    /// Makes a descriptor of a copy of the bytes.
    pub fn from_slice(value: &[u8]) -> (result: Result<HidrawReportDescriptor, HidError>)
        ensures
            result is Ok,
            result->Ok_0@ == value@,
    {
        let mut bytes: Vec<u8> = Vec::new();
        let mut at: usize = 0;
        while at < value.len()
            invariant
                at <= value.len(),
                bytes@ == value@.take(at as int),
            decreases value.len() - at,
        {
            bytes.push(value[at]);
            at = at + 1;
            assert(bytes@ =~= value@.take(at as int));
        }
        assert(value@.take(at as int) =~= value@);
        Ok(HidrawReportDescriptor(bytes))
    }

    /// Scans the descriptor for its pairs of usage page and usage: see
    /// [`spec_usages_from`].
    pub fn usages(&self) -> (found: Vec<(u16, u16)>)
        ensures
            found@ == spec_usages(self@),
    {
        let bytes = self.0.as_slice();
        let mut found: Vec<(u16, u16)> = Vec::new();
        let mut usage_page: u16 = 0;
        let mut usage: Option<u16> = None;
        let mut at: usize = 0;
        while at < bytes.len()
            invariant
                bytes@ == self@,
                spec_usages(self@) == spec_usages_from(bytes@, at as int, usage_page, usage, found@),
            decreases bytes.len() - at,
        {
            let key = bytes[at];
            let (data_len, key_size) = match hid_item_size(key, bytes, at + 1) {
                None => { return found; },
                Some(size) => size,
            };
            let tag = key - key % 4;
            if tag == 0x04 || tag == 0x08 {
                assert(data_len == 0 || data_len == 1 || data_len == 2 || data_len == 4);
                match hid_report_bytes(bytes, at + 1, data_len) {
                    None => {
                        match usage {
                            Some(declared) => {
                                if found.len() == 0 {
                                    found.push((usage_page, declared));
                                }
                            },
                            None => {},
                        }
                        return found;
                    },
                    Some(value) => {
                        if tag == 0x04 {
                            usage_page = (value % 0x1_0000) as u16;
                        } else {
                            usage = Some((value % 0x1_0000) as u16);
                        }
                    },
                }
            } else if tag == 0xa0 {
                match usage {
                    Some(declared) => {
                        found.push((usage_page, declared));
                    },
                    None => {},
                }
                usage = None;
            } else if tag == 0x80 || tag == 0x90 || tag == 0xb0 || tag == 0xc0 {
                usage = None;
            }
            let ghost next: int = at + data_len + key_size;
            if bytes.len() - at <= data_len + key_size {
                at = bytes.len();
                assert(spec_usages_from(bytes@, next, usage_page, usage, found@)
                    == spec_usages_from(bytes@, at as int, usage_page, usage, found@));
            } else {
                at = at + data_len + key_size;
            }
        }
        match usage {
            Some(declared) => {
                if found.len() == 0 {
                    found.push((usage_page, declared));
                }
            },
            None => {},
        }
        found
    }
}

/// The attributes of the USB device that a hidraw device belongs to, as
/// udev reads them; an attribute that is not there or is no text is none.
pub struct UsbAttributes {
    pub manufacturer: Option<String>,
    pub product: Option<String>,
    pub bcd_device: Option<String>,
}

/// What udev knows of a hidraw device.
pub struct HidrawProperties {
    /// The properties `HID_ID`, `HID_NAME` and `HID_UNIQ` of the HID device
    /// above the hidraw device; none where there is no such device or
    /// property.
    pub hid_id: Option<String>,
    pub hid_name: Option<String>,
    pub hid_uniq: Option<String>,
    /// The path of the device node.
    pub devnode: Option<Vec<u8>>,
    /// The attributes of the USB device above the hidraw device.
    pub usb_device: Option<UsbAttributes>,
    /// The attribute `bInterfaceNumber` of the USB interface above the
    /// hidraw device.
    pub interface_number: Option<String>,
    /// The report descriptor, where it could be read.
    pub report_descriptor: Option<Vec<u8>>,
}

/// The string of an attribute: its text, and nothing where it is not there.
pub open spec fn spec_attribute_as_wchar(attribute: Option<String>) -> WcharText {
    match attribute {
        Some(text) => WcharText::String(text@),
        None => WcharText::Absent,
    }
}

fn attribute_as_wchar(attribute: &Option<String>) -> (string: WcharString)
    ensures
        string@ == spec_attribute_as_wchar(*attribute),
{
    match attribute {
        Some(text) => WcharString::String(text.clone()),
        None => WcharString::Absent,
    }
}

/// The number of an attribute that writes it in hexadecimal; none where
/// the attribute is not there or writes no 16-bit number.
pub open spec fn spec_attribute_as_u16(attribute: Option<String>) -> Option<u16> {
    match attribute {
        Some(text) => match spec_signed_hex(text@, 0, 0xffff) {
            Some(value) => Some(value as u16),
            None => None,
        },
        None => None,
    }
}

fn attribute_as_u16(attribute: &Option<String>) -> (value: Option<u16>)
    ensures
        value == spec_attribute_as_u16(*attribute),
{
    match attribute {
        Some(text) => parse_hex_u16(text.as_str()),
        None => None,
    }
}

/// The number of an attribute that writes it in hexadecimal; none where
/// the attribute is not there or writes no 32-bit number.
pub open spec fn spec_attribute_as_i32(attribute: Option<String>) -> Option<i32> {
    match attribute {
        Some(text) => match spec_signed_hex(text@, -0x8000_0000, 0x7fff_ffff) {
            Some(value) => Some(value as i32),
            None => None,
        },
        None => None,
    }
}

fn attribute_as_i32(attribute: &Option<String>) -> (value: Option<i32>)
    ensures
        value == spec_attribute_as_i32(*attribute),
{
    match attribute {
        Some(text) => parse_hex_i32(text.as_str()),
        None => None,
    }
}

/// The record of a device without its usage: the ids from `HID_ID`, the
/// serial number from `HID_UNIQ`, and the path of the device node. For a
/// USB device that has a USB device above it, the manufacturer, the product
/// and the release come from the attributes of that device, and the number
/// of the interface from the USB interface, -1 where there is none;
/// every other device has an empty manufacturer and `HID_NAME` as its
/// product. There is no record where one of the three properties or the
/// device node is not there, where `HID_ID` is not of its form or names a
/// bus that is none of USB, Bluetooth, I2C and SPI, or where the path is
/// empty or holds a zero byte.
pub open spec fn spec_base_device_info(properties: HidrawProperties) -> Option<DeviceInfoView> {
    if properties.hid_id is None || properties.hid_name is None || properties.hid_uniq is None
        || properties.devnode is None {
        None
    } else {
        let path = properties.devnode->0@;
        match spec_parse_hid_vid_pid(properties.hid_id->0@) {
            None => None,
            Some((bus, vendor_id, product_id)) => match spec_bus_type_of(bus) {
                None => None,
                Some(bus_type) => if path.len() == 0 || path.contains(0u8) {
                    None
                } else {
                    let plain = DeviceInfoView {
                        path,
                        vendor_id,
                        product_id,
                        serial_number: WcharText::String(properties.hid_uniq->0@),
                        release_number: 0,
                        manufacturer_string: WcharText::String(Seq::empty()),
                        product_string: WcharText::String(properties.hid_name->0@),
                        usage_page: 0,
                        usage: 0,
                        interface_number: -1i32,
                        bus_type,
                    };
                    if bus_type == BusType::Usb && properties.usb_device is Some {
                        let usb = properties.usb_device->0;
                        Some(
                            DeviceInfoView {
                                release_number: match spec_attribute_as_u16(usb.bcd_device) {
                                    Some(release) => release,
                                    None => 0,
                                },
                                manufacturer_string: spec_attribute_as_wchar(usb.manufacturer),
                                product_string: spec_attribute_as_wchar(usb.product),
                                interface_number: match spec_attribute_as_i32(
                                    properties.interface_number,
                                ) {
                                    Some(number) => number,
                                    None => -1i32,
                                },
                                ..plain
                            },
                        )
                    } else {
                        Some(plain)
                    }
                },
            },
        }
    }
}

/// The records of a device: one for each pair of usage page and usage of
/// its report descriptor, each the record of the device with that pair, and
/// the one record of the device without a usage where the descriptor could
/// not be read or holds no pair.
pub open spec fn spec_device_infos(properties: HidrawProperties) -> Option<Seq<DeviceInfoView>> {
    match spec_base_device_info(properties) {
        None => None,
        Some(base) => {
            let usages = match properties.report_descriptor {
                Some(descriptor) => spec_usages(descriptor@),
                None => Seq::empty(),
            };
            if usages.len() == 0 {
                Some(seq![base])
            } else {
                Some(
                    Seq::new(
                        usages.len(),
                        |at: int|
                            DeviceInfoView { usage_page: usages[at].0, usage: usages[at].1, ..base },
                    ),
                )
            }
        },
    }
}

fn holds_zero(bytes: &[u8]) -> (found: bool)
    ensures
        found == bytes@.contains(0u8),
{
    let mut at: usize = 0;
    while at < bytes.len()
        invariant
            at <= bytes.len(),
            forall|i: int| 0 <= i < at ==> bytes@[i] != 0,
        decreases bytes.len() - at,
    {
        if bytes[at] == 0 {
            return true;
        }
        at = at + 1;
    }
    false
}

fn base_device_info(properties: &HidrawProperties) -> (info: Option<DeviceInfo>)
    ensures
        match spec_base_device_info(*properties) {
            Some(base) => info is Some && info->0@ == base,
            None => info is None,
        },
{
    let (hid_id, name, serial, devnode) = match (
        &properties.hid_id,
        &properties.hid_name,
        &properties.hid_uniq,
        &properties.devnode,
    ) {
        (Some(hid_id), Some(name), Some(serial), Some(devnode)) => (hid_id, name, serial, devnode),
        _ => { return None; },
    };
    let (bus, vendor_id, product_id) = match parse_hid_vid_pid(hid_id.as_str()) {
        None => { return None; },
        Some(ids) => ids,
    };
    let bus_type = match bus_type_of(bus) {
        None => { return None; },
        Some(bus_type) => bus_type,
    };
    if devnode.len() == 0 || holds_zero(devnode.as_slice()) {
        return None;
    }
    let path = vstd::slice::slice_to_vec(devnode.as_slice());
    match (bus_type, &properties.usb_device) {
        (BusType::Usb, Some(usb)) => Some(
            DeviceInfo {
                path,
                vendor_id,
                product_id,
                serial_number: WcharString::String(serial.clone()),
                release_number: match attribute_as_u16(&usb.bcd_device) {
                    Some(release) => release,
                    None => 0,
                },
                manufacturer_string: attribute_as_wchar(&usb.manufacturer),
                product_string: attribute_as_wchar(&usb.product),
                usage_page: 0,
                usage: 0,
                interface_number: match attribute_as_i32(&properties.interface_number) {
                    Some(number) => number,
                    None => -1,
                },
                bus_type,
            },
        ),
        _ => Some(
            DeviceInfo {
                path,
                vendor_id,
                product_id,
                serial_number: WcharString::String(serial.clone()),
                release_number: 0,
                manufacturer_string: WcharString::String(String::new()),
                product_string: WcharString::String(name.clone()),
                usage_page: 0,
                usage: 0,
                interface_number: -1,
                bus_type,
            },
        ),
    }
}

/// Makes the records of a hidraw device from what udev knows of it: see
/// [`spec_base_device_info`] and [`spec_device_infos`]. Every record that it
/// makes has a path that is not empty.
pub fn device_to_hid_device_info(properties: &HidrawProperties) -> (infos: Option<Vec<DeviceInfo>>)
    ensures
        match spec_device_infos(*properties) {
            Some(records) => {
                &&& infos is Some
                &&& infos->0@.len() == records.len()
                &&& forall|at: int| 0 <= at < records.len() ==> (#[trigger] infos->0@[at])@ == records[at]
                &&& forall|at: int| 0 <= at < records.len() ==> (#[trigger] records[at]).path.len() > 0
                &&& records.len() >= 1
            },
            None => infos is None,
        },
{
    let base = match base_device_info(properties) {
        None => { return None; },
        Some(base) => base,
    };
    let usages = match &properties.report_descriptor {
        Some(descriptor) => {
            let scanned = HidrawReportDescriptor(vstd::slice::slice_to_vec(descriptor.as_slice()));
            scanned.usages()
        },
        None => Vec::new(),
    };
    let mut infos: Vec<DeviceInfo> = Vec::new();
    if usages.len() == 0 {
        infos.push(base);
        return Some(infos);
    }
    let mut at: usize = 0;
    while at < usages.len()
        invariant
            at <= usages.len(),
            infos@.len() == at,
            forall|i: int|
                0 <= i < at ==> (#[trigger] infos@[i])@ == (DeviceInfoView {
                    usage_page: usages@[i].0,
                    usage: usages@[i].1,
                    ..base@
                }),
        decreases usages.len() - at,
    {
        let mut info = base.clone();
        info.usage_page = usages[at].0;
        info.usage = usages[at].1;
        infos.push(info);
        at = at + 1;
    }
    Some(infos)
}

/// The error of a device that could not be opened: it names the path and
/// gives the reason of the system.
pub fn open_error(path: &str, reason: &str) -> (error: HidError)
    ensures
        error is HidApiError,
        error->HidApiError_message@ == "failed to open device with path "@ + path@ + ": "@
            + reason@,
{
    let mut message = String::from_str("failed to open device with path ");
    message.append(path);
    message.append(": ");
    message.append(reason);
    HidError::HidApiError { message }
}

/// The error of a device node that does not answer the question for the
/// size of its report descriptor, as a node does that is no hidraw node:
/// it names the ioctl and the path, and gives the reason of the system.
pub fn descriptor_size_error(path: &str, reason: &str) -> (error: HidError)
    ensures
        error is HidApiError,
        error->HidApiError_message@ == "ioctl(GRDESCSIZE) error for "@ + path@
            + ", not a HIDRAW device?: "@ + reason@,
{
    let mut message = String::from_str("ioctl(GRDESCSIZE) error for ");
    message.append(path);
    message.append(", not a HIDRAW device?: ");
    message.append(reason);
    HidError::HidApiError { message }
}

/// The error of a feature report that the system refused: it names the
/// ioctl and gives the reason of the system.
pub fn feature_error(reason: &str) -> (error: HidError)
    ensures
        error is HidApiError,
        error->HidApiError_message@ == "ioctl (GFEATURE): "@ + reason@,
{
    let mut message = String::from_str("ioctl (GFEATURE): ");
    message.append(reason);
    HidError::HidApiError { message }
}

/// The error of a read from a device that is gone.
pub fn disconnected_error() -> (error: HidError)
    ensures
        error is HidApiError,
        error->HidApiError_message@ == "unexpected poll error (device disconnected)"@,
{
    HidError::HidApiError {
        message: String::from_str("unexpected poll error (device disconnected)"),
    }
}

/// The error of an enumeration that holds no device with the ids and the
/// serial number asked for.
pub fn not_found_error() -> (error: HidError)
    ensures
        error is HidApiError,
        error->HidApiError_message@ == "device not found"@,
{
    HidError::HidApiError { message: String::from_str("device not found") }
}

/// The error of an open device of which no record can be made.
pub fn no_device_info_error() -> (error: HidError)
    ensures
        error is HidApiError,
        error->HidApiError_message@ == "failed to create device info"@,
{
    HidError::HidApiError { message: String::from_str("failed to create device info") }
}

/// How long a read waits for a report: for ever in blocking mode, not at
/// all else.
pub fn read_timeout_for(blocking: bool) -> (timeout: i32)
    ensures
        timeout == (if blocking {
            -1i32
        } else {
            0i32
        }),
{
    if blocking {
        -1
    } else {
        0
    }
}

/// What a read does after it has waited for a report.
#[derive(Copy, Clone, Debug, PartialEq, Eq, Structural)]
pub enum ReadStep {
    /// No report came in time: the read gives 0 bytes.
    NoData,
    /// The device is gone: the read fails.
    Disconnected,
    /// A report is there to be read.
    Read,
}

/// The events of a poll that tell that the device is gone: an error, a hang
/// up, or a descriptor that is not open.
pub const POLL_GONE: u16 = 0x38;

/// What a read does after the poll: nothing where no descriptor is ready;
/// it fails where the events of the descriptor are not known or hold one of
/// error, hang up and invalid; else it reads.
pub open spec fn spec_after_poll(ready: i32, events: Option<u16>) -> ReadStep {
    if ready == 0 {
        ReadStep::NoData
    } else if events is None || (events->0 / 8) % 8 != 0 {
        ReadStep::Disconnected
    } else {
        ReadStep::Read
    }
}

pub fn after_poll(ready: i32, events: Option<u16>) -> (step: ReadStep)
    ensures
        step == spec_after_poll(ready, events),
{
    if ready == 0 {
        return ReadStep::NoData;
    }
    match events {
        None => ReadStep::Disconnected,
        Some(bits) => if (bits / 8) % 8 != 0 {
            ReadStep::Disconnected
        } else {
            ReadStep::Read
        },
    }
}

/// The error numbers with which a read tells that no report is there.
pub const EAGAIN: i32 = 11;

pub const EINPROGRESS: i32 = 115;

/// What a read gives for the result of the system call: the number of
/// bytes read; 0 bytes where the call says that no report is there; and the
/// error of the system for every other error.
pub fn read_outcome(result: Result<usize, i32>) -> (outcome: Result<usize, HidError>)
    ensures
        match result {
            Ok(count) => outcome == Ok::<usize, HidError>(count),
            Err(errno) => if errno == EAGAIN || errno == EINPROGRESS {
                outcome == Ok::<usize, HidError>(0)
            } else {
                outcome is Err && outcome->Err_0 == (HidError::IoError { os_error: errno })
            },
        },
{
    match result {
        Ok(count) => Ok(count),
        Err(errno) => if errno == EAGAIN || errno == EINPROGRESS {
            Ok(0)
        } else {
            Err(HidError::IoError { os_error: errno })
        },
    }
}

/// Whether a feature report was sent whole: the system must have taken as
/// many bytes as the report has.
pub fn feature_report_sent(sent: usize, all: usize) -> (result: Result<(), HidError>)
    ensures
        sent == all <==> result is Ok,
        sent != all ==> result->Err_0 == (HidError::IncompleteSendError { sent, all }),
{
    if sent != all {
        Err(HidError::IncompleteSendError { sent, all })
    } else {
        Ok(())
    }
}

/// The records `found` with those of `records` from position `at` on behind
/// them that pass the filter.
pub open spec fn spec_filtered_from(
    records: Seq<DeviceInfoView>,
    vid: u16,
    pid: u16,
    at: int,
    found: Seq<DeviceInfoView>,
) -> Seq<DeviceInfoView>
    decreases records.len() - at,
{
    if at < 0 || at >= records.len() {
        found
    } else if spec_matches_filter(records[at], vid, pid) {
        spec_filtered_from(records, vid, pid, at + 1, found.push(records[at]))
    } else {
        spec_filtered_from(records, vid, pid, at + 1, found)
    }
}

/// The records `found` with those of the devices from position `at` on
/// behind them: of each device that has records, those that pass the
/// filter, in their order.
pub open spec fn spec_enumerated_from(
    devices: Seq<HidrawProperties>,
    vid: u16,
    pid: u16,
    at: int,
    found: Seq<DeviceInfoView>,
) -> Seq<DeviceInfoView>
    decreases devices.len() - at,
{
    if at < 0 || at >= devices.len() {
        found
    } else {
        match spec_device_infos(devices[at]) {
            Some(records) => spec_enumerated_from(
                devices,
                vid,
                pid,
                at + 1,
                spec_filtered_from(records, vid, pid, 0, found),
            ),
            None => spec_enumerated_from(devices, vid, pid, at + 1, found),
        }
    }
}

/// Whether each record has a path that is not empty.
pub open spec fn spec_all_have_paths(records: Seq<DeviceInfoView>) -> bool {
    forall|at: int| 0 <= at < records.len() ==> (#[trigger] records[at]).path.len() > 0
}

/// The number of devices from position `at` on of which records can be
/// made.
pub open spec fn spec_device_count(devices: Seq<HidrawProperties>, at: int) -> nat
    decreases devices.len() - at,
{
    if at < 0 || at >= devices.len() {
        0
    } else if spec_device_infos(devices[at]) is Some {
        1 + spec_device_count(devices, at + 1)
    } else {
        spec_device_count(devices, at + 1)
    }
}

/// Whether a device from position `at` on has more than one record: its
/// report descriptor names more than one usage.
pub open spec fn spec_some_device_has_usages(devices: Seq<HidrawProperties>, at: int) -> bool {
    exists|device: int|
        at <= device < devices.len() && (#[trigger] spec_device_infos(devices[device])) is Some
            && spec_device_infos(devices[device])->0.len() > 1
}

/// The records of a device are at least one, and each has a path.
proof fn lemma_device_infos_have_paths(properties: HidrawProperties)
    requires
        spec_device_infos(properties) is Some,
    ensures
        spec_device_infos(properties)->0.len() >= 1,
        spec_all_have_paths(spec_device_infos(properties)->0),
{
}

/// A filter keeps the records that were found before it and adds records
/// with paths only, where the records that it looks at have paths.
proof fn lemma_filtered_have_paths(
    records: Seq<DeviceInfoView>,
    vid: u16,
    pid: u16,
    at: int,
    found: Seq<DeviceInfoView>,
)
    requires
        spec_all_have_paths(records),
        spec_all_have_paths(found),
        0 <= at,
    ensures
        spec_all_have_paths(spec_filtered_from(records, vid, pid, at, found)),
    decreases records.len() - at,
{
    if at < records.len() {
        if spec_matches_filter(records[at], vid, pid) {
            lemma_filtered_have_paths(records, vid, pid, at + 1, found.push(records[at]));
        } else {
            lemma_filtered_have_paths(records, vid, pid, at + 1, found);
        }
    }
}

proof fn lemma_enumerated_have_paths(
    devices: Seq<HidrawProperties>,
    vid: u16,
    pid: u16,
    at: int,
    found: Seq<DeviceInfoView>,
)
    requires
        spec_all_have_paths(found),
        0 <= at,
    ensures
        spec_all_have_paths(spec_enumerated_from(devices, vid, pid, at, found)),
    decreases devices.len() - at,
{
    if at < devices.len() {
        match spec_device_infos(devices[at]) {
            Some(records) => {
                lemma_device_infos_have_paths(devices[at]);
                lemma_filtered_have_paths(records, vid, pid, 0, found);
                lemma_enumerated_have_paths(
                    devices,
                    vid,
                    pid,
                    at + 1,
                    spec_filtered_from(records, vid, pid, 0, found),
                );
            },
            None => {
                lemma_enumerated_have_paths(devices, vid, pid, at + 1, found);
            },
        }
    }
}

/// Every record of an enumeration has a path that is not empty, whatever
/// the devices and the filter are.
pub proof fn lemma_enumeration_gives_paths(devices: Seq<HidrawProperties>, vid: u16, pid: u16)
    ensures
        spec_all_have_paths(spec_enumerated_from(devices, vid, pid, 0, Seq::empty())),
{
    lemma_enumerated_have_paths(devices, vid, pid, 0, Seq::empty());
}

/// Without a filter every record passes.
proof fn lemma_unfiltered_length(records: Seq<DeviceInfoView>, at: int, found: Seq<DeviceInfoView>)
    requires
        0 <= at <= records.len(),
    ensures
        spec_filtered_from(records, 0, 0, at, found).len() == found.len() + records.len() - at,
    decreases records.len() - at,
{
    if at < records.len() {
        lemma_unfiltered_length(records, at + 1, found.push(records[at]));
    }
}

proof fn lemma_unfiltered_count(
    devices: Seq<HidrawProperties>,
    at: int,
    found: Seq<DeviceInfoView>,
)
    requires
        0 <= at,
    ensures
        spec_enumerated_from(devices, 0, 0, at, found).len() >= found.len() + spec_device_count(
            devices,
            at,
        ),
        spec_enumerated_from(devices, 0, 0, at, found).len() > found.len() + spec_device_count(
            devices,
            at,
        ) <==> spec_some_device_has_usages(devices, at),
    decreases devices.len() - at,
{
    if at < devices.len() {
        match spec_device_infos(devices[at]) {
            Some(records) => {
                lemma_device_infos_have_paths(devices[at]);
                lemma_unfiltered_length(records, 0, found);
                lemma_unfiltered_count(
                    devices,
                    at + 1,
                    spec_filtered_from(records, 0, 0, 0, found),
                );
                if spec_some_device_has_usages(devices, at) {
                    let device = choose|device: int|
                        at <= device < devices.len() && (#[trigger] spec_device_infos(
                            devices[device],
                        )) is Some && spec_device_infos(devices[device])->0.len() > 1;
                    if device != at {
                        assert(spec_some_device_has_usages(devices, at + 1));
                    }
                }
                if spec_some_device_has_usages(devices, at + 1) {
                    let device = choose|device: int|
                        at + 1 <= device < devices.len() && (#[trigger] spec_device_infos(
                            devices[device],
                        )) is Some && spec_device_infos(devices[device])->0.len() > 1;
                    assert(spec_some_device_has_usages(devices, at));
                }
                if records.len() > 1 {
                    assert(spec_device_infos(devices[at]) is Some);
                    assert(spec_some_device_has_usages(devices, at));
                }
            },
            None => {
                lemma_unfiltered_count(devices, at + 1, found);
                if spec_some_device_has_usages(devices, at) {
                    let device = choose|device: int|
                        at <= device < devices.len() && (#[trigger] spec_device_infos(
                            devices[device],
                        )) is Some && spec_device_infos(devices[device])->0.len() > 1;
                    assert(spec_some_device_has_usages(devices, at + 1));
                }
                if spec_some_device_has_usages(devices, at + 1) {
                    let device = choose|device: int|
                        at + 1 <= device < devices.len() && (#[trigger] spec_device_infos(
                            devices[device],
                        )) is Some && spec_device_infos(devices[device])->0.len() > 1;
                    assert(spec_some_device_has_usages(devices, at));
                }
            },
        }
    }
}

/// An enumeration without a filter gives at least one record for each
/// device of which records can be made, and more records than there are
/// such devices exactly where the report descriptor of one of them names
/// more than one usage.
pub proof fn lemma_enumeration_without_filter(devices: Seq<HidrawProperties>)
    ensures
        spec_enumerated_from(devices, 0, 0, 0, Seq::empty()).len() >= spec_device_count(
            devices,
            0,
        ),
        spec_enumerated_from(devices, 0, 0, 0, Seq::empty()).len() > spec_device_count(devices, 0)
            <==> spec_some_device_has_usages(devices, 0),
{
    lemma_unfiltered_count(devices, 0, Seq::empty());
}

fn push_filtered(found: &mut Vec<DeviceInfo>, records: &Vec<DeviceInfo>, vid: u16, pid: u16)
    ensures
        spec_info_views(final(found)@) == spec_filtered_from(
            spec_info_views(records@),
            vid,
            pid,
            0,
            spec_info_views(old(found)@),
        ),
{
    let mut at: usize = 0;
    while at < records.len()
        invariant
            at <= records@.len(),
            spec_filtered_from(
                spec_info_views(records@),
                vid,
                pid,
                0,
                spec_info_views(old(found)@),
            ) == spec_filtered_from(
                spec_info_views(records@),
                vid,
                pid,
                at as int,
                spec_info_views(found@),
            ),
        decreases records@.len() - at,
    {
        assert(spec_info_views(records@)[at as int] == records@[at as int]@);
        if matches_filter(&records[at], vid, pid) {
            let ghost before = spec_info_views(found@);
            found.push(records[at].clone());
            assert(spec_info_views(found@) =~= before.push(records@[at as int]@));
        }
        at = at + 1;
    }
}

/// The back end of the library on Linux.
pub struct HidApiBackend;

impl HidApiBackend {
    /// Makes the records of an enumeration from what udev knows of the
    /// hidraw devices of the system: the records of each device that pass
    /// the filter of vendor id and product id, where an id of 0 lets every
    /// device pass. A device of which no record can be made is left out.
    pub fn get_hid_device_info_vector(devices: &[HidrawProperties], vid: u16, pid: u16) -> (result:
        HidResult<Vec<DeviceInfo>>)
        ensures
            result is Ok,
            spec_info_views(result->Ok_0@) == spec_enumerated_from(
                devices@,
                vid,
                pid,
                0,
                Seq::empty(),
            ),
    {
        let mut found: Vec<DeviceInfo> = Vec::new();
        let mut at: usize = 0;
        assert(spec_info_views(found@) =~= Seq::<DeviceInfoView>::empty());
        while at < devices.len()
            invariant
                at <= devices@.len(),
                spec_enumerated_from(devices@, vid, pid, 0, Seq::empty()) == spec_enumerated_from(
                    devices@,
                    vid,
                    pid,
                    at as int,
                    spec_info_views(found@),
                ),
            decreases devices@.len() - at,
        {
            match device_to_hid_device_info(&devices[at]) {
                None => {},
                Some(records) => {
                    assert(spec_info_views(records@) =~= spec_device_infos(
                        devices@[at as int],
                    )->0);
                    push_filtered(&mut found, &records, vid, pid);
                },
            }
            at = at + 1;
        }
        Ok(found)
    }
}

/// The major number of a device number: bits 8 to 19 of it, and bits 44 to
/// 63 above them.
pub open spec fn spec_major(devnum: u64) -> u64 {
    ((devnum >> 32) & 0xffff_f000) | ((devnum >> 8) & 0x0000_0fff)
}

/// The minor number of a device number: bits 0 to 7 of it, and bits 20 to
/// 43 above them.
pub open spec fn spec_minor(devnum: u64) -> u64 {
    ((devnum >> 12) & 0xffff_ff00) | (devnum & 0x0000_00ff)
}

/// Calls `nix::sys::stat::major`, which takes the major number out of a
/// device number of Linux by the shifts and masks of [`spec_major`].
#[verifier::external_body]
fn device_major(devnum: u64) -> (major: u64)
    ensures
        major == spec_major(devnum),
{
    nix::sys::stat::major(devnum)
}

/// Calls `nix::sys::stat::minor`, which takes the minor number out of a
/// device number of Linux by the shifts and masks of [`spec_minor`].
#[verifier::external_body]
fn device_minor(devnum: u64) -> (minor: u64)
    ensures
        minor == spec_minor(devnum),
{
    nix::sys::stat::minor(devnum)
}

/// The place of a character device in sysfs: `/sys/dev/char/`, the major
/// number of the device, a colon, and its minor number, both in decimal.
pub open spec fn spec_char_device_syspath(devnum: u64) -> Seq<char> {
    "/sys/dev/char/"@ + spec_decimal_digits(spec_major(devnum) as nat) + ":"@
        + spec_decimal_digits(spec_minor(devnum) as nat)
}

/// Names the place in sysfs of the character device with a device number:
/// see [`spec_char_device_syspath`].
pub fn char_device_syspath(devnum: u64) -> (path: String)
    ensures
        path@ == spec_char_device_syspath(devnum),
{
    let mut path = String::from_str("/sys/dev/char/");
    path.append(decimal_text(device_major(devnum)).as_str());
    path.append(":");
    path.append(decimal_text(device_minor(devnum)).as_str());
    path
}

} // verus!

//! The record that describes one attached device, and the strings in it.

use vstd::prelude::*;
use crate::text::{chars_of, decode_utf16, decode_wide, spec_decode_utf16, spec_decode_wide};

verus! {

/// The bus that a device is attached to.
#[derive(Copy, Clone, Debug, PartialEq, Eq, Structural)]
pub enum BusType {
    Unknown,
    Usb,
    Bluetooth,
    I2c,
    Spi,
}

/// A string of a device: text, or the wide characters as they came where
/// they are no text, or nothing.
#[derive(Debug)]
pub enum WcharString {
    String(String),
    Raw(Vec<u32>),
    Absent,
}

/// What a [`WcharString`] holds.
pub enum WcharText {
    String(Seq<char>),
    Raw(Seq<u32>),
    Absent,
}

impl View for WcharString {
    type V = WcharText;

    open spec fn view(&self) -> WcharText {
        match self {
            WcharString::String(text) => WcharText::String(text@),
            WcharString::Raw(wide) => WcharText::Raw(wide@),
            WcharString::Absent => WcharText::Absent,
        }
    }
}

/// The code units of UTF-16 as wide characters.
pub open spec fn spec_widen(units: Seq<u16>) -> Seq<u32> {
    Seq::new(units.len(), |at: int| units[at] as u32)
}

fn widen(units: &[u16]) -> (wide: Vec<u32>)
    ensures
        wide@ == spec_widen(units@),
{
    let mut wide: Vec<u32> = Vec::new();
    let mut at: usize = 0;
    while at < units.len()
        invariant
            at <= units.len(),
            wide@.len() == at,
            forall|i: int| 0 <= i < at ==> (#[trigger] wide@[i]) == units@[i] as u32,
        decreases units.len() - at,
    {
        wide.push(units[at] as u32);
        at = at + 1;
    }
    assert(wide@ =~= spec_widen(units@));
    wide
}

fn copy_of<T: Copy>(items: &[T]) -> (copy: Vec<T>)
    ensures
        copy@ == items@,
{
    let mut copy: Vec<T> = Vec::new();
    let mut at: usize = 0;
    while at < items.len()
        invariant
            at <= items.len(),
            copy@.len() == at,
            forall|i: int| 0 <= i < at ==> (#[trigger] copy@[i]) == items@[i],
        decreases items.len() - at,
    {
        copy.push(items[at]);
        at = at + 1;
    }
    assert(copy@ =~= items@);
    copy
}

impl Clone for WcharString {
    fn clone(&self) -> (copy: WcharString)
        ensures
            copy@ == self@,
    {
        match self {
            WcharString::String(text) => WcharString::String(text.clone()),
            WcharString::Raw(wide) => WcharString::Raw(copy_of(wide.as_slice())),
            WcharString::Absent => WcharString::Absent,
        }
    }
}

impl WcharString {
    /// The text, where the string is text.
    pub fn as_str(&self) -> (text: Option<&str>)
        ensures
            match self@ {
                WcharText::String(held) => text is Some && text->0@ == held,
                _ => text is None,
            },
    {
        match self {
            WcharString::String(text) => Some(text.as_str()),
            _ => None,
        }
    }

    /// The wide characters, where the string is no text.
    pub fn as_raw(&self) -> (wide: Option<&[u32]>)
        ensures
            match self@ {
                WcharText::Raw(held) => wide is Some && wide->0@ == held,
                _ => wide is None,
            },
    {
        match self {
            WcharString::Raw(wide) => Some(wide.as_slice()),
            _ => None,
        }
    }

    /// The text as a string of its own, where the string is text.
    pub fn into_string(self) -> (text: Option<String>)
        ensures
            match self@ {
                WcharText::String(held) => text is Some && text->0@ == held,
                _ => text is None,
            },
    {
        match self {
            WcharString::String(text) => Some(text),
            _ => None,
        }
    }

    /// Whether the string is no text or empty text.
    pub open spec fn spec_is_blank(&self) -> bool {
        match self@ {
            WcharText::String(held) => held.len() == 0,
            _ => true,
        }
    }

    /// Whether the string is no text or empty text: a blank string is one
    /// that another source may fill in.
    pub fn is_blank(&self) -> (blank: bool)
        ensures
            blank == self.spec_is_blank(),
    {
        match self {
            WcharString::String(text) => {
                let held = text.as_str();
                proof {
                    vstd::string::axiom_str_literal_len(held);
                }
                held.unicode_len() == 0
            },
            _ => true,
        }
    }
}

/// The string that UTF-16 code units stand for: their text where they are
/// valid UTF-16, else the code units themselves.
pub open spec fn spec_u16str_to_wstring(units: Seq<u16>) -> WcharText {
    match spec_decode_utf16(units) {
        Some(text) => WcharText::String(text),
        None => WcharText::Raw(spec_widen(units)),
    }
}

/// Makes a string of UTF-16 code units: see [`spec_u16str_to_wstring`].
pub fn u16str_to_wstring(units: &[u16]) -> (string: WcharString)
    ensures
        string@ == spec_u16str_to_wstring(units@),
{
    match decode_utf16(units) {
        Some(text) => WcharString::String(text),
        None => WcharString::Raw(widen(units)),
    }
}

/// The string that wide characters stand for: nothing where there are none,
/// their text where each of them is the number of a character, else the
/// wide characters themselves.
pub open spec fn spec_wchar_to_string(wide: Option<Seq<u32>>) -> WcharText {
    match wide {
        None => WcharText::Absent,
        Some(wide) => match spec_decode_wide(wide) {
            Some(text) => WcharText::String(text),
            None => WcharText::Raw(wide),
        },
    }
}

/// Makes a string of the wide characters before the terminating zero of a
/// C string: see [`spec_wchar_to_string`].
pub fn wchar_to_string(wide: Option<&[u32]>) -> (string: WcharString)
    ensures
        string@ == spec_wchar_to_string(
            match wide {
                Some(wide) => Some(wide@),
                None => None,
            },
        ),
{
    match wide {
        None => WcharString::Absent,
        Some(wide) => match decode_wide(wide) {
            Some(text) => WcharString::String(text),
            None => WcharString::Raw(copy_of(wide)),
        },
    }
}

/// What is known of one attached device.
#[derive(Debug)]
pub struct DeviceInfo {
    /// The path by which the operating system opens the device.
    pub path: Vec<u8>,
    pub vendor_id: u16,
    pub product_id: u16,
    pub serial_number: WcharString,
    /// The release of the device, in binary-coded decimal.
    pub release_number: u16,
    pub manufacturer_string: WcharString,
    pub product_string: WcharString,
    pub usage_page: u16,
    pub usage: u16,
    /// The number of the USB interface, -1 where there is none.
    pub interface_number: i32,
    pub bus_type: BusType,
}

/// What a [`DeviceInfo`] holds.
pub struct DeviceInfoView {
    pub path: Seq<u8>,
    pub vendor_id: u16,
    pub product_id: u16,
    pub serial_number: WcharText,
    pub release_number: u16,
    pub manufacturer_string: WcharText,
    pub product_string: WcharText,
    pub usage_page: u16,
    pub usage: u16,
    pub interface_number: i32,
    pub bus_type: BusType,
}

impl View for DeviceInfo {
    type V = DeviceInfoView;

    open spec fn view(&self) -> DeviceInfoView {
        DeviceInfoView {
            path: self.path@,
            vendor_id: self.vendor_id,
            product_id: self.product_id,
            serial_number: self.serial_number@,
            release_number: self.release_number,
            manufacturer_string: self.manufacturer_string@,
            product_string: self.product_string@,
            usage_page: self.usage_page,
            usage: self.usage,
            interface_number: self.interface_number,
            bus_type: self.bus_type,
        }
    }
}

impl Clone for DeviceInfo {
    fn clone(&self) -> (copy: DeviceInfo)
        ensures
            copy@ == self@,
    {
        DeviceInfo {
            path: copy_of(self.path.as_slice()),
            vendor_id: self.vendor_id,
            product_id: self.product_id,
            serial_number: self.serial_number.clone(),
            release_number: self.release_number,
            manufacturer_string: self.manufacturer_string.clone(),
            product_string: self.product_string.clone(),
            usage_page: self.usage_page,
            usage: self.usage,
            interface_number: self.interface_number,
            bus_type: self.bus_type,
        }
    }
}

/// The views of the records of a vector.
pub open spec fn spec_info_views(infos: Seq<DeviceInfo>) -> Seq<DeviceInfoView> {
    Seq::new(infos.len(), |at: int| infos[at]@)
}

/// How a device is opened from its record.
#[derive(Debug)]
pub enum OpenTarget {
    /// By its path.
    Path(Vec<u8>),
    /// By its ids and its serial number.
    Serial { vendor_id: u16, product_id: u16, serial_number: String },
}

/// What an [`OpenTarget`] holds.
pub enum OpenTargetView {
    Path(Seq<u8>),
    Serial { vendor_id: u16, product_id: u16, serial_number: Seq<char> },
}

impl View for OpenTarget {
    type V = OpenTargetView;

    open spec fn view(&self) -> OpenTargetView {
        match self {
            OpenTarget::Path(path) => OpenTargetView::Path(path@),
            OpenTarget::Serial { vendor_id, product_id, serial_number } => OpenTargetView::Serial {
                vendor_id: *vendor_id,
                product_id: *product_id,
                serial_number: serial_number@,
            },
        }
    }
}

impl DeviceInfo {
    pub fn path(&self) -> (path: &[u8])
        ensures
            path@ == self@.path,
    {
        self.path.as_slice()
    }

    pub fn vendor_id(&self) -> (id: u16)
        ensures
            id == self@.vendor_id,
    {
        self.vendor_id
    }

    pub fn product_id(&self) -> (id: u16)
        ensures
            id == self@.product_id,
    {
        self.product_id
    }

    /// The serial number, where it is text.
    pub fn serial_number(&self) -> (text: Option<&str>)
        ensures
            match self@.serial_number {
                WcharText::String(held) => text is Some && text->0@ == held,
                _ => text is None,
            },
    {
        self.serial_number.as_str()
    }

    /// The serial number, where it is no text.
    pub fn serial_number_raw(&self) -> (wide: Option<&[u32]>)
        ensures
            match self@.serial_number {
                WcharText::Raw(held) => wide is Some && wide->0@ == held,
                _ => wide is None,
            },
    {
        self.serial_number.as_raw()
    }

    pub fn release_number(&self) -> (release: u16)
        ensures
            release == self@.release_number,
    {
        self.release_number
    }

    /// The name of the manufacturer, where it is text.
    pub fn manufacturer_string(&self) -> (text: Option<&str>)
        ensures
            match self@.manufacturer_string {
                WcharText::String(held) => text is Some && text->0@ == held,
                _ => text is None,
            },
    {
        self.manufacturer_string.as_str()
    }

    /// The name of the manufacturer, where it is no text.
    pub fn manufacturer_string_raw(&self) -> (wide: Option<&[u32]>)
        ensures
            match self@.manufacturer_string {
                WcharText::Raw(held) => wide is Some && wide->0@ == held,
                _ => wide is None,
            },
    {
        self.manufacturer_string.as_raw()
    }

    /// The name of the product, where it is text.
    pub fn product_string(&self) -> (text: Option<&str>)
        ensures
            match self@.product_string {
                WcharText::String(held) => text is Some && text->0@ == held,
                _ => text is None,
            },
    {
        self.product_string.as_str()
    }

    /// The name of the product, where it is no text.
    pub fn product_string_raw(&self) -> (wide: Option<&[u32]>)
        ensures
            match self@.product_string {
                WcharText::Raw(held) => wide is Some && wide->0@ == held,
                _ => wide is None,
            },
    {
        self.product_string.as_raw()
    }

    pub fn usage_page(&self) -> (page: u16)
        ensures
            page == self@.usage_page,
    {
        self.usage_page
    }

    pub fn usage(&self) -> (usage: u16)
        ensures
            usage == self@.usage,
    {
        self.usage
    }

    pub fn interface_number(&self) -> (number: i32)
        ensures
            number == self@.interface_number,
    {
        self.interface_number
    }

    pub fn bus_type(&self) -> (bus: BusType)
        ensures
            bus == self@.bus_type,
    {
        self.bus_type
    }

    /// How the device of the record is opened: by its path where it has
    /// one, else by its ids and serial number where that is text; there is
    /// no way where neither is at hand.
    pub open spec fn spec_open_target(&self) -> Option<OpenTargetView> {
        if self@.path.len() != 0 {
            Some(OpenTargetView::Path(self@.path))
        } else {
            match self@.serial_number {
                WcharText::String(held) => Some(
                    OpenTargetView::Serial {
                        vendor_id: self.vendor_id,
                        product_id: self.product_id,
                        serial_number: held,
                    },
                ),
                _ => None,
            }
        }
    }

    /// Decides how the device of the record is opened: see
    /// [`Self::spec_open_target`].
    pub fn open_target(&self) -> (target: Option<OpenTarget>)
        ensures
            match self.spec_open_target() {
                Some(way) => target is Some && target->0@ == way,
                None => target is None,
            },
    {
        if self.path.len() != 0 {
            Some(OpenTarget::Path(copy_of(self.path.as_slice())))
        } else {
            match &self.serial_number {
                WcharString::String(text) => Some(
                    OpenTarget::Serial {
                        vendor_id: self.vendor_id,
                        product_id: self.product_id,
                        serial_number: text.clone(),
                    },
                ),
                _ => None,
            }
        }
    }
}

/// Whether a record passes the filter of an enumeration: an id of 0 lets
/// every device pass.
pub open spec fn spec_matches_filter(info: DeviceInfoView, vid: u16, pid: u16) -> bool {
    (vid == 0 || info.vendor_id == vid) && (pid == 0 || info.product_id == pid)
}

pub fn matches_filter(info: &DeviceInfo, vid: u16, pid: u16) -> (passes: bool)
    ensures
        passes == spec_matches_filter(info@, vid, pid),
{
    (vid == 0 || info.vendor_id == vid) && (pid == 0 || info.product_id == pid)
}

/// Whether a device is the one to open: it has the ids, and the serial
/// number where one is asked for.
pub open spec fn spec_is_wanted(
    info: DeviceInfoView,
    vid: u16,
    pid: u16,
    serial_number: Option<Seq<char>>,
) -> bool {
    info.vendor_id == vid && info.product_id == pid && (serial_number is None
        || info.serial_number == WcharText::String(serial_number->0))
}

/// Finds the device to open among the records of an enumeration: the first
/// that has the ids, and the serial number where one is asked for. There is
/// none where no record is wanted.
pub fn find_device(devices: &[DeviceInfo], vid: u16, pid: u16, serial_number: Option<&str>) -> (found:
    Option<usize>)
    ensures
        match found {
            Some(at) => {
                &&& at < devices@.len()
                &&& spec_is_wanted(devices@[at as int]@, vid, pid, spec_str(serial_number))
                &&& forall|before: int|
                    0 <= before < at ==> !spec_is_wanted(
                        (#[trigger] devices@[before])@,
                        vid,
                        pid,
                        spec_str(serial_number),
                    )
            },
            None => forall|at: int|
                0 <= at < devices@.len() ==> !spec_is_wanted(
                    (#[trigger] devices@[at])@,
                    vid,
                    pid,
                    spec_str(serial_number),
                ),
        },
{
    let mut at: usize = 0;
    while at < devices.len()
        invariant
            at <= devices.len(),
            forall|before: int|
                0 <= before < at ==> !spec_is_wanted(
                    (#[trigger] devices@[before])@,
                    vid,
                    pid,
                    spec_str(serial_number),
                ),
        decreases devices.len() - at,
    {
        let device = &devices[at];
        if device.vendor_id == vid && device.product_id == pid {
            match serial_number {
                None => {
                    return Some(at);
                },
                Some(wanted) => match device.serial_number.as_str() {
                    Some(held) => {
                        if str_eq(held, wanted) {
                            return Some(at);
                        }
                    },
                    None => {},
                },
            }
        }
        at = at + 1;
    }
    None
}

/// The text of a string slice that may not be there.
pub open spec fn spec_str(text: Option<&str>) -> Option<Seq<char>> {
    match text {
        Some(text) => Some(text@),
        None => None,
    }
}

fn str_eq(left: &str, right: &str) -> (same: bool)
    ensures
        same == (left@ == right@),
{
    let a = chars_of(left);
    let b = chars_of(right);
    if a.len() != b.len() {
        return false;
    }
    let mut at: usize = 0;
    while at < a.len()
        invariant
            at <= a.len(),
            a@.len() == b@.len(),
            a@ == left@,
            b@ == right@,
            forall|i: int| 0 <= i < at ==> a@[i] == b@[i],
        decreases a.len() - at,
    {
        if a[at] as u32 != b[at] as u32 {
            assert(a@[at as int] != b@[at as int]);
            return false;
        }
        proof {
            vstd::utf8::char_u32_cast(a@[at as int], a@[at as int] as u32);
            vstd::utf8::char_u32_cast(b@[at as int], b@[at as int] as u32);
        }
        at = at + 1;
    }
    assert(a@ =~= b@);
    true
}

/// Copies the start of a report descriptor into a buffer, as much of it as
/// the buffer holds, and gives the number of bytes copied.
pub fn copy_descriptor(buf: &mut [u8], descriptor: &[u8]) -> (copied: usize)
    ensures
        copied == (if old(buf)@.len() <= descriptor@.len() {
            old(buf)@.len()
        } else {
            descriptor@.len()
        }),
        final(buf)@.len() == old(buf)@.len(),
        final(buf)@.take(copied as int) == descriptor@.take(copied as int),
        final(buf)@.skip(copied as int) == old(buf)@.skip(copied as int),
{
    let size = if buf.len() <= descriptor.len() {
        buf.len()
    } else {
        descriptor.len()
    };
    let mut at: usize = 0;
    while at < size
        invariant
            at <= size,
            size <= descriptor@.len(),
            size <= buf@.len(),
            buf@.len() == old(buf)@.len(),
            forall|i: int| 0 <= i < at ==> buf@[i] == descriptor@[i],
            forall|i: int| at <= i < buf@.len() ==> buf@[i] == old(buf)@[i],
        decreases size - at,
    {
        buf[at] = descriptor[at];
        at = at + 1;
    }
    assert(buf@.take(size as int) =~= descriptor@.take(size as int));
    assert(buf@.skip(size as int) =~= old(buf)@.skip(size as int));
    size
}

} // verus!

//! How the record of a device is put together from what the HID stack and
//! the configuration manager tell of it.
//!
//! The record starts with the ids and strings that the HID stack hands out.
//! The ids of the device node above the interface tell its bus. A USB
//! device gets its release and interface number from its hardware ids and,
//! where the HID stack had none, its manufacturer from the device node and
//! its serial number from the instance id; a Bluetooth LE device gets its
//! blank strings from the properties of its device node.

use vstd::prelude::*;
use crate::device_info::{
    spec_u16str_to_wstring,
    u16str_to_wstring,
    BusType,
    DeviceInfo,
    DeviceInfoView,
    WcharString,
    WcharText,
};
use crate::windows_native::string::{
    extract_int_token_value,
    spec_extract_int_token_value,
    spec_starts_with_ignore_case,
    spec_to_upper,
    to_upper,
    U16Str,
};
use crate::windows_native::types::InternalBusType;

verus! {

/// The code units before the first zero, and all of them where there is
/// none.
pub open spec fn spec_until_null(units: Seq<u16>, at: int) -> int
    decreases units.len() - at,
{
    if at < 0 || at >= units.len() {
        units.len() as int
    } else if units[at] == 0 {
        at
    } else {
        spec_until_null(units, at + 1)
    }
}

/// The string that a query of the HID stack gives: the text before the
/// first zero of the buffer where the query succeeded, and the empty text
/// where it failed. A string is never missing.
pub open spec fn spec_read_string(succeeded: bool, scratch: Seq<u16>) -> WcharText {
    if succeeded {
        spec_u16str_to_wstring(scratch.subrange(0, spec_until_null(scratch, 0)))
    } else {
        WcharText::String(Seq::empty())
    }
}

/// Makes the string of a query of the HID stack: see [`spec_read_string`].
pub fn read_string(succeeded: bool, scratch: &[u16]) -> (string: WcharString)
    ensures
        string@ == spec_read_string(succeeded, scratch@),
{
    if !succeeded {
        return WcharString::String(String::new());
    }
    let mut end: usize = 0;
    while end < scratch.len() && scratch[end] != 0
        invariant
            end <= scratch@.len(),
            spec_until_null(scratch@, 0) == spec_until_null(scratch@, end as int),
        decreases scratch@.len() - end,
    {
        end = end + 1;
    }
    u16str_to_wstring(vstd::slice::slice_subrange(scratch, 0, end))
}

/// The record of a device as the HID stack alone describes it: no interface
/// number, and the bus not known.
pub fn initial_device_info(
    path: Vec<u8>,
    vendor_id: u16,
    product_id: u16,
    version_number: u16,
    serial_number: WcharString,
    manufacturer_string: WcharString,
    product_string: WcharString,
    usage_page: u16,
    usage: u16,
) -> (info: DeviceInfo)
    ensures
        info@ == (DeviceInfoView {
            path: path@,
            vendor_id,
            product_id,
            serial_number: serial_number@,
            release_number: version_number,
            manufacturer_string: manufacturer_string@,
            product_string: product_string@,
            usage_page,
            usage,
            interface_number: -1i32,
            bus_type: BusType::Unknown,
        }),
{
    DeviceInfo {
        path,
        vendor_id,
        product_id,
        serial_number,
        release_number: version_number,
        manufacturer_string,
        product_string,
        usage_page,
        usage,
        interface_number: -1,
        bus_type: BusType::Unknown,
    }
}

/// The bus that a compatible id names: `USB`, `BTHENUM`, `BTHLEDEVICE`,
/// `PNP0C50` for I2C and `PNP0C51` for SPI at its start, in any case of the
/// letters; none for another id.
pub open spec fn spec_bus_of_id(id: Seq<u16>) -> Option<InternalBusType> {
    if spec_starts_with_ignore_case(id, "USB"@) {
        Some(InternalBusType::Usb)
    } else if spec_starts_with_ignore_case(id, "BTHENUM"@) {
        Some(InternalBusType::Bluetooth)
    } else if spec_starts_with_ignore_case(id, "BTHLEDEVICE"@) {
        Some(InternalBusType::BluetoothLE)
    } else if spec_starts_with_ignore_case(id, "PNP0C50"@) {
        Some(InternalBusType::I2c)
    } else if spec_starts_with_ignore_case(id, "PNP0C51"@) {
        Some(InternalBusType::Spi)
    } else {
        None
    }
}

fn bus_of_id(id: &U16Str) -> (bus: Option<InternalBusType>)
    requires
        id.wf(),
    ensures
        bus == spec_bus_of_id(id.spec_as_slice()),
{
    if id.starts_with_ignore_case("USB") {
        Some(InternalBusType::Usb)
    } else if id.starts_with_ignore_case("BTHENUM") {
        Some(InternalBusType::Bluetooth)
    } else if id.starts_with_ignore_case("BTHLEDEVICE") {
        Some(InternalBusType::BluetoothLE)
    } else if id.starts_with_ignore_case("PNP0C50") {
        Some(InternalBusType::I2c)
    } else if id.starts_with_ignore_case("PNP0C51") {
        Some(InternalBusType::Spi)
    } else {
        None
    }
}

/// The bus of a device by the compatible ids of its device node, from
/// position `at` on: the bus of the first id that names one, and unknown
/// where none does.
pub open spec fn spec_bus_type_from(ids: Seq<U16Str>, at: int) -> InternalBusType
    decreases ids.len() - at,
{
    if at < 0 || at >= ids.len() {
        InternalBusType::Unknown
    } else {
        match spec_bus_of_id(ids[at].spec_as_slice()) {
            Some(bus) => bus,
            None => spec_bus_type_from(ids, at + 1),
        }
    }
}

/// Tells the bus of a device from the compatible ids of its device node:
/// see [`spec_bus_type_from`].
pub fn bus_type_of_compatible_ids(ids: &[U16Str]) -> (bus: InternalBusType)
    requires
        forall|at: int| 0 <= at < ids@.len() ==> (#[trigger] ids@[at]).wf(),
    ensures
        bus == spec_bus_type_from(ids@, 0),
{
    let mut at: usize = 0;
    while at < ids.len()
        invariant
            forall|i: int| 0 <= i < ids@.len() ==> (#[trigger] ids@[i]).wf(),
            spec_bus_type_from(ids@, 0) == spec_bus_type_from(ids@, at as int),
        decreases ids@.len() - at,
    {
        match bus_of_id(&ids[at]) {
            Some(bus) => {
                return bus;
            },
            None => {},
        }
        at = at + 1;
    }
    InternalBusType::Unknown
}

/// Whether an instance id is that of a controller of the XUSB class: it
/// holds `IG_` and a hexadecimal number behind it, in any case of the
/// letters. The hardware ids of such a device are those of the device node
/// one level further up.
pub open spec fn spec_is_xusb(instance_id: Seq<u16>) -> bool {
    spec_extract_int_token_value(spec_to_upper(instance_id), "IG_"@) is Some
}

/// Decides [`spec_is_xusb`].
pub fn is_xusb(instance_id: &U16Str) -> (xusb: bool)
    requires
        instance_id.wf(),
    ensures
        xusb == spec_is_xusb(instance_id.spec_as_slice()),
{
    let mut units = vstd::slice::slice_to_vec(instance_id.as_slice());
    to_upper(units.as_mut_slice());
    extract_int_token_value(units.as_slice(), "IG_").is_some()
}

/// The release and the interface number of a device after one of its
/// hardware ids was looked at: a release of 0 is replaced by the number
/// behind `REV_`, an interface number of -1 by the number behind `MI_`,
/// each kept in the bits of its field.
pub open spec fn spec_apply_hardware_id(release_number: u16, interface_number: i32, id: Seq<u16>) -> (
    u16,
    i32,
) {
    let upper = spec_to_upper(id);
    let release = match spec_extract_int_token_value(upper, "REV_"@) {
        Some(value) => if release_number == 0 {
            (value % 0x1_0000) as u16
        } else {
            release_number
        },
        None => release_number,
    };
    let interface = match spec_extract_int_token_value(upper, "MI_"@) {
        Some(value) => if interface_number == -1 {
            if value >= 0x8000_0000 {
                (value - 0x1_0000_0000) as i32
            } else {
                value as i32
            }
        } else {
            interface_number
        },
        None => interface_number,
    };
    (release, interface)
}

/// The release and the interface number after the hardware ids from
/// position `at` on were looked at, each in its turn.
pub open spec fn spec_apply_hardware_ids_from(
    release_number: u16,
    interface_number: i32,
    ids: Seq<U16Str>,
    at: int,
) -> (u16, i32)
    decreases ids.len() - at,
{
    if at < 0 || at >= ids.len() {
        (release_number, interface_number)
    } else {
        let (release, interface) = spec_apply_hardware_id(
            release_number,
            interface_number,
            ids[at].spec_as_slice(),
        );
        spec_apply_hardware_ids_from(release, interface, ids, at + 1)
    }
}

/// Takes the release and the interface number of a USB device from its
/// hardware ids, as far as the record has none: see
/// [`spec_apply_hardware_id`].
pub fn apply_hardware_ids(info: &mut DeviceInfo, ids: &[U16Str])
    requires
        forall|at: int| 0 <= at < ids@.len() ==> (#[trigger] ids@[at]).wf(),
    ensures
        final(info)@ == (DeviceInfoView {
            release_number: spec_apply_hardware_ids_from(
                old(info)@.release_number,
                old(info)@.interface_number,
                ids@,
                0,
            ).0,
            interface_number: spec_apply_hardware_ids_from(
                old(info)@.release_number,
                old(info)@.interface_number,
                ids@,
                0,
            ).1,
            ..old(info)@
        }),
{
    let mut at: usize = 0;
    while at < ids.len()
        invariant
            forall|i: int| 0 <= i < ids@.len() ==> (#[trigger] ids@[i]).wf(),
            spec_apply_hardware_ids_from(
                old(info)@.release_number,
                old(info)@.interface_number,
                ids@,
                0,
            ) == spec_apply_hardware_ids_from(
                info@.release_number,
                info@.interface_number,
                ids@,
                at as int,
            ),
            info@ == (DeviceInfoView {
                release_number: info@.release_number,
                interface_number: info@.interface_number,
                ..old(info)@
            }),
        decreases ids@.len() - at,
    {
        let mut units = vstd::slice::slice_to_vec(ids[at].as_slice());
        to_upper(units.as_mut_slice());
        if info.release_number == 0 {
            match extract_int_token_value(units.as_slice(), "REV_") {
                Some(value) => {
                    info.release_number = (value % 0x1_0000) as u16;
                },
                None => {},
            }
        }
        if info.interface_number == -1 {
            match extract_int_token_value(units.as_slice(), "MI_") {
                Some(value) => {
                    info.interface_number = if value >= 0x8000_0000 {
                        (value as i64 - 0x1_0000_0000) as i32
                    } else {
                        value as i32
                    };
                },
                None => {},
            }
        }
        at = at + 1;
    }
}

/// The last position below `below` at which a string holds `unit`.
pub open spec fn spec_last_position(units: Seq<u16>, unit: u16, below: int) -> Option<int>
    decreases below,
{
    if below <= 0 || below > units.len() {
        None
    } else if units[below - 1] == unit {
        Some(below - 1)
    } else {
        spec_last_position(units, unit, below - 1)
    }
}

/// The first position from `from` on at which a string holds `unit`, and
/// the length of the string where it holds none.
pub open spec fn spec_first_position(units: Seq<u16>, unit: u16, from: int) -> int
    decreases units.len() - from,
{
    if from < 0 || from >= units.len() {
        units.len() as int
    } else if units[from] == unit {
        from
    } else {
        spec_first_position(units, unit, from + 1)
    }
}

/// The serial number that an instance id holds: what stands behind its last
/// backslash, up to the first `&` behind that. There is none in an id
/// without a backslash.
pub open spec fn spec_serial_from_instance_id(instance_id: Seq<u16>) -> Option<WcharText> {
    match spec_last_position(instance_id, 0x5Cu16, instance_id.len() as int) {
        None => None,
        Some(slash) => Some(
            spec_u16str_to_wstring(
                instance_id.subrange(slash + 1, spec_first_position(instance_id, 0x26u16, slash + 1)),
            ),
        ),
    }
}

/// Takes the serial number of a USB device from the instance id of its
/// device node: see [`spec_serial_from_instance_id`].
pub fn serial_from_instance_id(instance_id: &U16Str) -> (serial: Option<WcharString>)
    requires
        instance_id.wf(),
    ensures
        match spec_serial_from_instance_id(instance_id.spec_as_slice()) {
            Some(text) => serial is Some && serial->0@ == text,
            None => serial is None,
        },
{
    let units = instance_id.as_slice();
    let mut below: usize = units.len();
    while below > 0 && units[below - 1] != 0x5C
        invariant
            below <= units@.len(),
            spec_last_position(units@, 0x5Cu16, units@.len() as int) == spec_last_position(
                units@,
                0x5Cu16,
                below as int,
            ),
        decreases below,
    {
        below = below - 1;
    }
    if below == 0 {
        return None;
    }
    let start: usize = below;
    let mut end: usize = start;
    while end < units.len() && units[end] != 0x26
        invariant
            start <= end <= units@.len(),
            spec_first_position(units@, 0x26u16, start as int) == spec_first_position(
                units@,
                0x26u16,
                end as int,
            ),
        decreases units@.len() - end,
    {
        end = end + 1;
    }
    Some(u16str_to_wstring(vstd::slice::slice_subrange(units, start, end)))
}

/// Whether the serial number of a USB device is looked for at the device
/// node one level further up: so where the device has an interface number,
/// which makes it one interface of a composite device.
pub fn serial_node_is_parent(info: &DeviceInfo) -> (parent: bool)
    ensures
        parent == (info@.interface_number != -1),
{
    info.interface_number != -1
}

/// A string of the record after another source was asked for it: what the
/// source gave where the string was blank and the source gave something,
/// else the string as it was.
pub open spec fn spec_fill_blank(current: WcharString, found: Option<WcharString>) -> WcharText {
    if current.spec_is_blank() && found is Some {
        found->0@
    } else {
        current@
    }
}

/// Fills a blank string from another source: see [`spec_fill_blank`].
pub fn fill_blank(current: WcharString, found: Option<WcharString>) -> (string: WcharString)
    ensures
        string@ == spec_fill_blank(current, found),
{
    if current.is_blank() {
        match found {
            Some(found) => found,
            None => current,
        }
    } else {
        current
    }
}

/// The interface number of a USB device at the end: 0 where its hardware
/// ids name none.
pub fn final_interface_number(interface_number: i32) -> (number: i32)
    ensures
        number == (if interface_number == -1 {
            0i32
        } else {
            interface_number
        }),
{
    if interface_number == -1 {
        0
    } else {
        interface_number
    }
}

} // verus!

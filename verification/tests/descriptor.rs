use hidapi::windows_native::descriptor::get_descriptor;
use hidapi::windows_native::error::WinError;
use hidapi::windows_native::hid::PreparsedData;

/// One capability record, as the tests describe it.
#[derive(Clone, Copy)]
struct Field {
    page: u16,
    report_id: u8,
    byte: u16,
    bit: u8,
    size: u16,
    count: u16,
    bit_field: u32,
    collection: u16,
    flags: u8,
    words: [u16; 8],
    bounds: [i32; 5],
    units: u32,
    units_exp: u32,
}

const BUTTON: u8 = 0x04;
const RANGE: u8 = 0x10;
const STRING_RANGE: u8 = 0x40;
const DESIGNATOR_RANGE: u8 = 0x80;

impl Field {
    fn at(mut self, byte: u16, bit: u8) -> Field {
        self.byte = byte;
        self.bit = bit;
        self
    }

    fn report(mut self, report_id: u8) -> Field {
        self.report_id = report_id;
        self
    }

    fn within(mut self, collection: u16) -> Field {
        self.collection = collection;
        self
    }

    fn main_flags(mut self, bit_field: u32) -> Field {
        self.bit_field = bit_field;
        self
    }

    fn physical(mut self, min: i32, max: i32) -> Field {
        self.bounds[3] = min;
        self.bounds[4] = max;
        self
    }

    fn unit(mut self, units: u32, units_exp: u32) -> Field {
        self.units = units;
        self.units_exp = units_exp;
        self
    }
}

/// A range of one-bit buttons with the usages `first..=last`.
fn buttons(page: u16, first: u16, last: u16) -> Field {
    Field {
        page,
        report_id: 0,
        byte: 1,
        bit: 0,
        size: 1,
        count: last - first + 1,
        bit_field: 0x02,
        collection: 0,
        flags: BUTTON | RANGE,
        words: [first, last, 0, 0, 0, 0, 0, last - first],
        bounds: [0; 5],
        units: 0,
        units_exp: 0,
    }
}

/// A single one-bit button.
fn button(page: u16, usage: u16) -> Field {
    Field {
        page,
        report_id: 0,
        byte: 1,
        bit: 0,
        size: 1,
        count: 1,
        bit_field: 0x02,
        collection: 0,
        flags: BUTTON,
        words: [usage, 0, 0, 0, 0, 0, 0, 0],
        bounds: [0; 5],
        units: 0,
        units_exp: 0,
    }
}

/// An array of `count` selectors of `size` bits over the usages
/// `first..=last`, which are also its logical bounds.
fn selector(page: u16, first: u16, last: u16, size: u16, count: u16) -> Field {
    Field {
        page,
        report_id: 0,
        byte: 1,
        bit: 0,
        size,
        count,
        bit_field: 0x00,
        collection: 0,
        flags: BUTTON | RANGE,
        words: [first, last, 0, 0, 0, 0, 0, last - first],
        bounds: [first as i32, last as i32, 0, 0, 0],
        units: 0,
        units_exp: 0,
    }
}

/// A variable value of `size` bits, `count` times.
fn value(page: u16, usage: u16, size: u16, count: u16, min: i32, max: i32) -> Field {
    Field {
        page,
        report_id: 0,
        byte: 1,
        bit: 0,
        size,
        count,
        bit_field: 0x02,
        collection: 0,
        flags: 0,
        words: [usage, 0, 0, 0, 0, 0, 0, 0],
        bounds: [0, min, max, 0, 0],
        units: 0,
        units_exp: 0,
    }
}

/// One link collection node.
#[derive(Clone, Copy)]
struct Node {
    page: u16,
    usage: u16,
    parent: u16,
    children: u16,
    next_sibling: u16,
    first_child: u16,
    kind: u32,
}

const PHYSICAL: u32 = 0;
const APPLICATION: u32 = 1;
const LOGICAL: u32 = 2;

fn root(page: u16, usage: u16) -> Node {
    Node {
        page,
        usage,
        parent: 0,
        children: 0,
        next_sibling: 0,
        first_child: 0,
        kind: APPLICATION,
    }
}

fn put16(out: &mut Vec<u8>, value: u16) {
    out.extend_from_slice(&value.to_le_bytes());
}

fn put32(out: &mut Vec<u8>, value: u32) {
    out.extend_from_slice(&value.to_le_bytes());
}

fn report_bytes(fields: &[Field]) -> u16 {
    let mut bytes: u16 = 0;
    for field in fields {
        let end = (field.byte - 1) * 8 + field.bit as u16 + field.size * field.count;
        bytes = bytes.max((end + 7) / 8 + 1);
    }
    bytes
}

/// The preparsed data of a top-level collection with the given fields of the
/// input, output and feature reports.
fn preparsed(input: &[Field], output: &[Field], feature: &[Field], nodes: &[Node]) -> Vec<u8> {
    let mut out: Vec<u8> = Vec::new();
    out.extend_from_slice(b"HidP KDR");
    put16(&mut out, nodes[0].usage);
    put16(&mut out, nodes[0].page);
    put16(&mut out, 0);
    put16(&mut out, 0);
    let mut first: u16 = 0;
    for fields in [input, output, feature] {
        let count = fields.len() as u16;
        put16(&mut out, first);
        put16(&mut out, count);
        put16(&mut out, first + count);
        put16(&mut out, report_bytes(fields));
        first += count;
    }
    put16(&mut out, first * 104);
    put16(&mut out, nodes.len() as u16);
    assert_eq!(44, out.len());
    for fields in [input, output, feature] {
        for field in fields {
            let start = out.len();
            put16(&mut out, field.page);
            out.push(field.report_id);
            out.push(field.bit);
            put16(&mut out, field.size);
            put16(&mut out, field.count);
            put16(&mut out, field.byte);
            put16(&mut out, field.size * field.count);
            put32(&mut out, field.bit_field);
            put16(&mut out, field.byte + (field.bit as u16 + field.size * field.count + 7) / 8);
            put16(&mut out, field.collection);
            put16(&mut out, nodes[field.collection as usize].page);
            put16(&mut out, nodes[field.collection as usize].usage);
            out.push(field.flags);
            out.extend_from_slice(&[0; 3]);
            out.extend_from_slice(&[0; 32]);
            for word in field.words {
                put16(&mut out, word);
            }
            for bound in field.bounds {
                out.extend_from_slice(&bound.to_le_bytes());
            }
            put32(&mut out, field.units);
            put32(&mut out, field.units_exp);
            assert_eq!(104, out.len() - start);
        }
    }
    for node in nodes {
        put16(&mut out, node.usage);
        put16(&mut out, node.page);
        put16(&mut out, node.parent);
        put16(&mut out, node.children);
        put16(&mut out, node.next_sibling);
        put16(&mut out, node.first_child);
        put32(&mut out, node.kind);
    }
    out
}

fn descriptor_of(blob: Vec<u8>) -> Result<Vec<u8>, WinError> {
    get_descriptor(&PreparsedData::from_bytes(blob))
}

fn check(expected: &[u8], input: &[Field], output: &[Field], feature: &[Field], nodes: &[Node]) {
    let blob = preparsed(input, output, feature, nodes);
    let descriptor = descriptor_of(blob).expect("descriptor");
    assert_eq!(expected, descriptor.as_slice());
}

// A gamepad: two 16-bit axes and ten buttons, padded to a whole byte.
#[test]
fn test_01() {
    check(
        &[
            0x05, 0x01, 0x09, 0x05, 0xA1, 0x01, 0x09, 0x30, 0x09, 0x31, 0x15, 0x00, 0x27, 0xFF,
            0xFF, 0x00, 0x00, 0x75, 0x10, 0x95, 0x02, 0x81, 0x02, 0x05, 0x09, 0x19, 0x01, 0x29,
            0x0A, 0x15, 0x00, 0x25, 0x01, 0x75, 0x01, 0x95, 0x0A, 0x81, 0x02, 0x75, 0x06, 0x95,
            0x01, 0x81, 0x03, 0xC0,
        ],
        &[
            value(0x01, 0x30, 16, 1, 0, 65535).at(1, 0),
            value(0x01, 0x31, 16, 1, 0, 65535).at(3, 0),
            buttons(0x09, 1, 10).at(5, 0),
        ],
        &[],
        &[],
        &[root(0x01, 0x05)],
    );
}

// A keyboard: modifier keys, a constant byte, six key codes, and five LEDs
// in its output report.
#[test]
fn test_02() {
    check(
        &[
            0x05, 0x01, 0x09, 0x06, 0xA1, 0x01, 0x05, 0x07, 0x19, 0xE0, 0x29, 0xE7, 0x15, 0x00,
            0x25, 0x01, 0x75, 0x01, 0x95, 0x08, 0x81, 0x02, 0x75, 0x08, 0x95, 0x01, 0x81, 0x03,
            0x19, 0x00, 0x29, 0x65, 0x15, 0x00, 0x25, 0x65, 0x75, 0x08, 0x95, 0x06, 0x81, 0x00,
            0x05, 0x08, 0x19, 0x01, 0x29, 0x05, 0x15, 0x00, 0x25, 0x01, 0x75, 0x01, 0x95, 0x05,
            0x91, 0x02, 0x75, 0x03, 0x95, 0x01, 0x91, 0x03, 0xC0,
        ],
        &[
            buttons(0x07, 0xE0, 0xE7).at(1, 0),
            selector(0x07, 0x00, 0x65, 8, 6).at(3, 0),
        ],
        &[buttons(0x08, 1, 5).at(1, 0)],
        &[],
        &[root(0x01, 0x06)],
    );
}

// A consumer control with three single buttons in report 3.
#[test]
fn test_03() {
    check(
        &[
            0x05, 0x0C, 0x09, 0x01, 0xA1, 0x01, 0x85, 0x03, 0x09, 0xE9, 0x09, 0xEA, 0x09, 0xE2,
            0x15, 0x00, 0x25, 0x01, 0x75, 0x01, 0x95, 0x03, 0x81, 0x02, 0x75, 0x05, 0x95, 0x01,
            0x81, 0x03, 0xC0,
        ],
        &[
            button(0x0C, 0xE9).report(3).at(1, 0),
            button(0x0C, 0xEA).report(3).at(1, 1),
            button(0x0C, 0xE2).report(3).at(1, 2),
        ],
        &[],
        &[],
        &[root(0x0C, 0x01)],
    );
}

// A consumer control that sends two 16-bit usages.
#[test]
fn test_04() {
    check(
        &[
            0x05, 0x0C, 0x09, 0x01, 0xA1, 0x01, 0x85, 0x02, 0x19, 0x01, 0x2A, 0x8C, 0x02, 0x15,
            0x01, 0x26, 0x8C, 0x02, 0x75, 0x10, 0x95, 0x02, 0x81, 0x00, 0xC0,
        ],
        &[selector(0x0C, 0x0001, 0x028C, 16, 2).report(2).at(1, 0)],
        &[],
        &[],
        &[root(0x0C, 0x01)],
    );
}

// A vendor-defined device with six bytes in and six bytes out.
#[test]
fn test_05() {
    check(
        &[
            0x06, 0x00, 0xFF, 0x09, 0x01, 0xA1, 0x01, 0x85, 0x10, 0x09, 0x01, 0x15, 0x00, 0x26,
            0xFF, 0x00, 0x75, 0x08, 0x95, 0x06, 0x81, 0x02, 0x09, 0x02, 0x15, 0x00, 0x26, 0xFF,
            0x00, 0x75, 0x08, 0x95, 0x06, 0x91, 0x02, 0xC0,
        ],
        &[value(0xFF00, 0x01, 8, 6, 0, 255).report(0x10).at(1, 0)],
        &[value(0xFF00, 0x02, 8, 6, 0, 255).report(0x10).at(1, 0)],
        &[],
        &[root(0xFF00, 0x01)],
    );
}

fn pointer_nodes() -> [Node; 2] {
    let mut mouse = root(0x01, 0x02);
    mouse.children = 1;
    mouse.first_child = 1;
    let mut pointer = root(0x01, 0x01);
    pointer.kind = PHYSICAL;
    [mouse, pointer]
}

// A mouse: three buttons and three relative axes in a physical collection.
#[test]
fn test_06() {
    check(
        &[
            0x05, 0x01, 0x09, 0x02, 0xA1, 0x01, 0x09, 0x01, 0xA1, 0x00, 0x05, 0x09, 0x19, 0x01,
            0x29, 0x03, 0x15, 0x00, 0x25, 0x01, 0x75, 0x01, 0x95, 0x03, 0x81, 0x02, 0x75, 0x05,
            0x95, 0x01, 0x81, 0x03, 0x05, 0x01, 0x09, 0x30, 0x09, 0x31, 0x09, 0x38, 0x15, 0x81,
            0x25, 0x7F, 0x75, 0x08, 0x95, 0x03, 0x81, 0x06, 0xC0, 0xC0,
        ],
        &[
            buttons(0x09, 1, 3).within(1).at(1, 0),
            value(0x01, 0x30, 8, 1, -127, 127).within(1).at(2, 0).main_flags(0x06),
            value(0x01, 0x31, 8, 1, -127, 127).within(1).at(3, 0).main_flags(0x06),
            value(0x01, 0x38, 8, 1, -127, 127).within(1).at(4, 0).main_flags(0x06),
        ],
        &[],
        &[],
        &pointer_nodes(),
    );
}

// A vendor-defined device with one feature report of 19 bytes.
#[test]
fn test_07() {
    check(
        &[
            0x06, 0x00, 0xFF, 0x09, 0x02, 0xA1, 0x01, 0x85, 0x11, 0x09, 0x02, 0x15, 0x00, 0x26,
            0xFF, 0x00, 0x75, 0x08, 0x95, 0x13, 0xB1, 0x02, 0xC0,
        ],
        &[],
        &[],
        &[value(0xFF00, 0x02, 8, 19, 0, 255).report(0x11).at(1, 0)],
        &[root(0xFF00, 0x02)],
    );
}

// A keyboard whose report 1 holds the modifier keys and six key codes up to
// the usage 255.
#[test]
fn test_08() {
    check(
        &[
            0x05, 0x01, 0x09, 0x06, 0xA1, 0x01, 0x85, 0x01, 0x05, 0x07, 0x19, 0xE0, 0x29, 0xE7,
            0x15, 0x00, 0x25, 0x01, 0x75, 0x01, 0x95, 0x08, 0x81, 0x02, 0x19, 0x00, 0x29, 0xFF,
            0x15, 0x00, 0x26, 0xFF, 0x00, 0x75, 0x08, 0x95, 0x06, 0x81, 0x00, 0xC0,
        ],
        &[
            buttons(0x07, 0xE0, 0xE7).report(1).at(1, 0),
            selector(0x07, 0x00, 0xFF, 8, 6).report(1).at(2, 0),
        ],
        &[],
        &[],
        &[root(0x01, 0x06)],
    );
}

// A mouse with eight buttons, two 16-bit axes and a wheel. The fields stand
// in the capability array from the last to the first.
#[test]
fn test_09() {
    check(
        &[
            0x05, 0x01, 0x09, 0x02, 0xA1, 0x01, 0x09, 0x01, 0xA1, 0x00, 0x05, 0x09, 0x19, 0x01,
            0x29, 0x08, 0x15, 0x00, 0x25, 0x01, 0x75, 0x01, 0x95, 0x08, 0x81, 0x02, 0x05, 0x01,
            0x09, 0x30, 0x09, 0x31, 0x16, 0x01, 0x80, 0x26, 0xFF, 0x7F, 0x75, 0x10, 0x95, 0x02,
            0x81, 0x06, 0x09, 0x38, 0x15, 0x81, 0x25, 0x7F, 0x75, 0x08, 0x95, 0x01, 0x81, 0x06,
            0xC0, 0xC0,
        ],
        &[
            value(0x01, 0x38, 8, 1, -127, 127).within(1).at(6, 0).main_flags(0x06),
            value(0x01, 0x31, 16, 1, -32767, 32767).within(1).at(4, 0).main_flags(0x06),
            value(0x01, 0x30, 16, 1, -32767, 32767).within(1).at(2, 0).main_flags(0x06),
            buttons(0x09, 1, 8).within(1).at(1, 0),
        ],
        &[],
        &[],
        &pointer_nodes(),
    );
}

// A joystick: a hat switch in degrees, four constant bits, and two axes.
#[test]
fn test_10() {
    check(
        &[
            0x05, 0x01, 0x09, 0x04, 0xA1, 0x01, 0x09, 0x39, 0x15, 0x00, 0x25, 0x07, 0x35, 0x00,
            0x46, 0x3B, 0x01, 0x65, 0x14, 0x75, 0x04, 0x95, 0x01, 0x81, 0x42, 0x75, 0x04, 0x95,
            0x01, 0x81, 0x03, 0x09, 0x30, 0x09, 0x31, 0x15, 0x00, 0x26, 0xFF, 0x00, 0x35, 0x00,
            0x45, 0x00, 0x65, 0x00, 0x75, 0x08, 0x95, 0x02, 0x81, 0x02, 0xC0,
        ],
        &[
            value(0x01, 0x39, 4, 1, 0, 7)
                .at(1, 0)
                .main_flags(0x42)
                .physical(0, 315)
                .unit(0x14, 0),
            value(0x01, 0x30, 8, 1, 0, 255).at(2, 0),
            value(0x01, 0x31, 8, 1, 0, 255).at(3, 0),
        ],
        &[],
        &[],
        &[root(0x01, 0x04)],
    );
}

// Two input reports in one collection: buttons in report 1, axes in
// report 2.
#[test]
fn test_11() {
    check(
        &[
            0x05, 0x01, 0x09, 0x02, 0xA1, 0x01, 0x85, 0x01, 0x05, 0x09, 0x19, 0x01, 0x29, 0x05,
            0x15, 0x00, 0x25, 0x01, 0x75, 0x01, 0x95, 0x05, 0x81, 0x02, 0x75, 0x03, 0x95, 0x01,
            0x81, 0x03, 0x85, 0x02, 0x05, 0x01, 0x09, 0x30, 0x09, 0x31, 0x15, 0x81, 0x25, 0x7F,
            0x75, 0x08, 0x95, 0x02, 0x81, 0x06, 0xC0,
        ],
        &[
            buttons(0x09, 1, 5).report(1).at(1, 0),
            value(0x01, 0x30, 8, 1, -127, 127).report(2).at(1, 0).main_flags(0x06),
            value(0x01, 0x31, 8, 1, -127, 127).report(2).at(2, 0).main_flags(0x06),
        ],
        &[],
        &[],
        &[root(0x01, 0x02)],
    );
}

fn two_children(first_child: u16) -> [Node; 3] {
    let mut top = root(0xFF01, 0x01);
    top.children = 2;
    top.first_child = first_child;
    let mut low = root(0xFF01, 0x10);
    low.kind = LOGICAL;
    let mut high = root(0xFF01, 0x20);
    high.kind = LOGICAL;
    if first_child == 2 {
        high.next_sibling = 1;
    } else {
        low.next_sibling = 2;
    }
    [top, low, high]
}

const TWO_CHILDREN: [u8; 43] = [
    0x06, 0x01, 0xFF, 0x09, 0x01, 0xA1, 0x01, 0x09, 0x10, 0xA1, 0x02, 0x09, 0x11, 0x15, 0x00, 0x26,
    0xFF, 0x00, 0x75, 0x08, 0x95, 0x01, 0x81, 0x02, 0xC0, 0x09, 0x20, 0xA1, 0x02, 0x09, 0x21, 0x15,
    0x00, 0x26, 0xFF, 0x00, 0x75, 0x08, 0x95, 0x01, 0x81, 0x02, 0xC0,
];

// Two logical collections side by side; the tree links the second one
// first, as the parser leaves it.
#[test]
fn test_12() {
    let mut expected = TWO_CHILDREN.to_vec();
    expected.push(0xC0);
    check(
        &expected,
        &[
            value(0xFF01, 0x11, 8, 1, 0, 255).within(1).at(1, 0),
            value(0xFF01, 0x21, 8, 1, 0, 255).within(2).at(2, 0),
        ],
        &[],
        &[],
        &two_children(2),
    );
}

// The same two collections linked the other way round: the one whose field
// starts first in the report still comes first.
#[test]
fn test_13() {
    let mut expected = TWO_CHILDREN.to_vec();
    expected.push(0xC0);
    check(
        &expected,
        &[
            value(0xFF01, 0x11, 8, 1, 0, 255).within(1).at(1, 0),
            value(0xFF01, 0x21, 8, 1, 0, 255).within(2).at(2, 0),
        ],
        &[],
        &[],
        &two_children(1),
    );
}

// Strings and designators, single and in ranges, in a feature report.
#[test]
fn test_14() {
    let mut level = value(0xFF00, 0x05, 8, 1, 0, 100).at(1, 0);
    level.words[2] = 4;
    level.words[4] = 2;
    let mut keys = buttons(0xFF00, 1, 3).at(2, 0);
    keys.flags |= STRING_RANGE | DESIGNATOR_RANGE;
    keys.words[2] = 1;
    keys.words[3] = 3;
    keys.words[4] = 7;
    keys.words[5] = 9;
    check(
        &[
            0x06, 0x00, 0xFF, 0x09, 0x20, 0xA1, 0x01, 0x09, 0x05, 0x39, 0x02, 0x79, 0x04, 0x15,
            0x00, 0x25, 0x64, 0x75, 0x08, 0x95, 0x01, 0xB1, 0x02, 0x19, 0x01, 0x29, 0x03, 0x49,
            0x07, 0x59, 0x09, 0x89, 0x01, 0x99, 0x03, 0x15, 0x00, 0x25, 0x01, 0x75, 0x01, 0x95,
            0x03, 0xB1, 0x02, 0x75, 0x05, 0x95, 0x01, 0xB1, 0x03, 0xC0,
        ],
        &[],
        &[],
        &[level, keys],
        &[root(0xFF00, 0x20)],
    );
}

// A 32-bit value over the whole signed range.
#[test]
fn test_15() {
    check(
        &[
            0x06, 0x00, 0xFF, 0x09, 0x01, 0xA1, 0x01, 0x09, 0x02, 0x17, 0x00, 0x00, 0x00, 0x80,
            0x27, 0xFF, 0xFF, 0xFF, 0x7F, 0x75, 0x20, 0x95, 0x01, 0x81, 0x02, 0xC0,
        ],
        &[value(0xFF00, 0x02, 32, 1, i32::MIN, i32::MAX).at(1, 0)],
        &[],
        &[],
        &[root(0xFF00, 0x01)],
    );
}

// A touch position in centimetres with an exponent, then a tip switch: the
// button takes the physical bounds and the unit back.
#[test]
fn test_16() {
    check(
        &[
            0x05, 0x0D, 0x09, 0x04, 0xA1, 0x01, 0x05, 0x01, 0x09, 0x30, 0x15, 0x00, 0x26, 0xFF,
            0x0F, 0x35, 0x00, 0x46, 0xE8, 0x03, 0x55, 0x0E, 0x65, 0x11, 0x75, 0x10, 0x95, 0x01,
            0x81, 0x02, 0x05, 0x0D, 0x09, 0x42, 0x15, 0x00, 0x25, 0x01, 0x75, 0x01, 0x95, 0x01,
            0x45, 0x00, 0x55, 0x00, 0x65, 0x00, 0x81, 0x02, 0x75, 0x07, 0x95, 0x01, 0x81, 0x03,
            0xC0,
        ],
        &[
            value(0x01, 0x30, 16, 1, 0, 4095)
                .at(1, 0)
                .physical(0, 1000)
                .unit(0x11, 0x0E),
            button(0x0D, 0x42).at(3, 0),
        ],
        &[],
        &[],
        &[root(0x0D, 0x04)],
    );
}

// An array of four values over a range of usages: the report count is the
// number of data indices.
#[test]
fn test_17() {
    let mut slots = value(0xFF00, 0x01, 8, 4, 0, 255).at(1, 0).main_flags(0x00);
    slots.flags = RANGE;
    slots.words = [1, 4, 0, 0, 0, 0, 10, 13];
    check(
        &[
            0x06, 0x00, 0xFF, 0x09, 0x01, 0xA1, 0x01, 0x19, 0x01, 0x29, 0x04, 0x15, 0x00, 0x26,
            0xFF, 0x00, 0x75, 0x08, 0x95, 0x04, 0x81, 0x00, 0xC0,
        ],
        &[slots],
        &[],
        &[],
        &[root(0xFF00, 0x01)],
    );
}

// One field in each of the three report types, each with its own report id.
#[test]
fn test_18() {
    check(
        &[
            0x06, 0xA0, 0xFF, 0x09, 0x01, 0xA1, 0x01, 0x85, 0x01, 0x09, 0x03, 0x15, 0x00, 0x26,
            0xFF, 0x00, 0x75, 0x08, 0x95, 0x01, 0x81, 0x02, 0x85, 0x02, 0x09, 0x04, 0x15, 0x00,
            0x26, 0xFF, 0x00, 0x75, 0x08, 0x95, 0x01, 0x91, 0x02, 0x85, 0x03, 0x09, 0x05, 0x15,
            0x00, 0x26, 0xFF, 0x00, 0x75, 0x08, 0x95, 0x01, 0xB1, 0x02, 0xC0,
        ],
        &[value(0xFFA0, 0x03, 8, 1, 0, 255).report(1).at(1, 0)],
        &[value(0xFFA0, 0x04, 8, 1, 0, 255).report(2).at(1, 0)],
        &[value(0xFFA0, 0x05, 8, 1, 0, 255).report(3).at(1, 0)],
        &[root(0xFFA0, 0x01)],
    );
}

// Three values in a row: the first two share their bounds and one main item,
// the third has bounds of its own.
#[test]
fn test_19() {
    check(
        &[
            0x05, 0x01, 0x09, 0x08, 0xA1, 0x01, 0x09, 0x32, 0x09, 0x35, 0x15, 0x00, 0x26, 0xFF,
            0x00, 0x75, 0x08, 0x95, 0x02, 0x81, 0x02, 0x09, 0x36, 0x15, 0x81, 0x25, 0x7F, 0x75,
            0x08, 0x95, 0x01, 0x81, 0x02, 0xC0,
        ],
        &[
            value(0x01, 0x32, 8, 1, 0, 255).at(1, 0),
            value(0x01, 0x35, 8, 1, 0, 255).at(2, 0),
            value(0x01, 0x36, 8, 1, -127, 127).at(3, 0),
        ],
        &[],
        &[],
        &[root(0x01, 0x08)],
    );
}

// Three levels of collections. The field of the top collection starts
// before the fields of its grandchild, so it stands before the child.
#[test]
fn test_20() {
    let mut top = root(0x01, 0x04);
    top.children = 1;
    top.first_child = 1;
    let mut middle = root(0x01, 0x01);
    middle.kind = LOGICAL;
    middle.children = 1;
    middle.first_child = 2;
    let mut inner = root(0x01, 0x01);
    inner.kind = PHYSICAL;
    inner.parent = 1;
    check(
        &[
            0x05, 0x01, 0x09, 0x04, 0xA1, 0x01, 0x09, 0x36, 0x15, 0x00, 0x26, 0xFF, 0x00, 0x75,
            0x08, 0x95, 0x01, 0x81, 0x02, 0x09, 0x01, 0xA1, 0x02, 0x09, 0x01, 0xA1, 0x00, 0x09,
            0x30, 0x09, 0x31, 0x15, 0x00, 0x26, 0xFF, 0x00, 0x75, 0x08, 0x95, 0x02, 0x81, 0x02,
            0xC0, 0xC0, 0xC0,
        ],
        &[
            value(0x01, 0x30, 8, 1, 0, 255).within(2).at(2, 0),
            value(0x01, 0x31, 8, 1, 0, 255).within(2).at(3, 0),
            value(0x01, 0x36, 8, 1, 0, 255).within(0).at(1, 0),
        ],
        &[],
        &[],
        &[top, middle, inner],
    );
}

// An output report of 300 bytes and a feature report of one byte.
#[test]
fn test_21() {
    check(
        &[
            0x05, 0x14, 0x09, 0x01, 0xA1, 0x01, 0x09, 0x2C, 0x15, 0x00, 0x26, 0xFF, 0x00, 0x75,
            0x08, 0x96, 0x2C, 0x01, 0x91, 0x02, 0x09, 0x2D, 0x15, 0x00, 0x25, 0x03, 0x75, 0x08,
            0x95, 0x01, 0xB1, 0x02, 0xC0,
        ],
        &[],
        &[value(0x14, 0x2C, 8, 300, 0, 255).at(1, 0)],
        &[value(0x14, 0x2D, 8, 1, 0, 3).at(1, 0)],
        &[root(0x14, 0x01)],
    );
}

// A report whose only field starts at its second byte: nothing is put
// before the first field of a report.
#[test]
fn test_22() {
    check(
        &[
            0x05, 0x0C, 0x09, 0x01, 0xA1, 0x01, 0x09, 0xE0, 0x15, 0x00, 0x25, 0x64, 0x75, 0x08,
            0x95, 0x01, 0x81, 0x02, 0xC0,
        ],
        &[value(0x0C, 0xE0, 8, 1, 0, 100).at(2, 0)],
        &[],
        &[],
        &[root(0x0C, 0x01)],
    );
}

// Two values of report 5 with two unused bytes between them.
#[test]
fn test_23() {
    check(
        &[
            0x06, 0x00, 0xFF, 0x09, 0x01, 0xA1, 0x01, 0x85, 0x05, 0x09, 0x01, 0x15, 0x00, 0x26,
            0xFF, 0x00, 0x75, 0x08, 0x95, 0x01, 0x81, 0x02, 0x75, 0x10, 0x95, 0x01, 0x81, 0x03,
            0x09, 0x02, 0x15, 0x00, 0x26, 0xFF, 0x00, 0x75, 0x08, 0x95, 0x01, 0x81, 0x02, 0xC0,
        ],
        &[
            value(0xFF00, 0x01, 8, 1, 0, 255).report(5).at(1, 0),
            value(0xFF00, 0x02, 8, 1, 0, 255).report(5).at(4, 0),
        ],
        &[],
        &[],
        &[root(0xFF00, 0x01)],
    );
}

// A top-level collection without any field.
#[test]
fn test_24() {
    check(
        &[0x05, 0x01, 0x09, 0x80, 0xA1, 0x01, 0xC0],
        &[],
        &[],
        &[],
        &[root(0x01, 0x80)],
    );
}

#[test]
fn preparsed_data_without_signature() {
    let mut blob = preparsed(&[], &[], &[], &[root(0x01, 0x80)]);
    blob[0] = b'h';
    assert_eq!(Err(WinError::InvalidPreparsedData), descriptor_of(blob));
    assert_eq!(Err(WinError::InvalidPreparsedData), descriptor_of(Vec::new()));
    assert_eq!(
        Err(WinError::InvalidPreparsedData),
        descriptor_of(b"HidP KDR".to_vec())
    );
}

#[test]
fn preparsed_data_cut_off() {
    let fields = [value(0x01, 0x30, 8, 1, 0, 255)];
    let whole = preparsed(&fields, &[], &[], &[root(0x01, 0x04)]);
    assert!(descriptor_of(whole.clone()).is_ok());
    let mut short = whole.clone();
    short.pop();
    assert_eq!(Err(WinError::InvalidPreparsedData), descriptor_of(short));
    let header_only = whole[..44].to_vec();
    assert_eq!(Err(WinError::InvalidPreparsedData), descriptor_of(header_only));
}

#[test]
fn preparsed_data_with_broken_records() {
    // A field in a collection that does not exist.
    let mut lost = value(0x01, 0x30, 8, 1, 0, 255);
    lost.collection = 0;
    let mut blob = preparsed(&[lost], &[], &[], &[root(0x01, 0x04)]);
    blob[44 + 18] = 7;
    assert_eq!(Err(WinError::InvalidPreparsedData), descriptor_of(blob));
    // A field without bits.
    let empty = value(0x01, 0x30, 0, 1, 0, 255);
    let blob = preparsed(&[empty], &[], &[], &[root(0x01, 0x04)]);
    assert_eq!(Err(WinError::InvalidPreparsedData), descriptor_of(blob));
    // A field at byte position 0.
    let mut blob = preparsed(&[lost], &[], &[], &[root(0x01, 0x04)]);
    blob[44 + 8] = 0;
    assert_eq!(Err(WinError::InvalidPreparsedData), descriptor_of(blob));
    // A tree whose root names a child outside the array.
    let mut top = root(0x01, 0x04);
    top.children = 1;
    top.first_child = 3;
    let blob = preparsed(&[], &[], &[], &[top]);
    assert_eq!(Err(WinError::InvalidPreparsedData), descriptor_of(blob));
}

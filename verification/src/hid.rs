use vstd::prelude::*;

verus! {

/// 16-bit UUID of the HID service.
pub const HID_SERVICE_UUID: u16 = 0x1812;
/// 16-bit UUID of the HID Report characteristic.
pub const HID_REPORT_CHAR_UUID: u16 = 0x2A4D;
/// 16-bit UUID of the HID Report Map characteristic.
pub const HID_REPORT_MAP_UUID: u16 = 0x2A4B;
/// 16-bit UUID of the HID Information characteristic.
pub const HID_INFO_UUID: u16 = 0x2A4A;
/// 16-bit UUID of the HID Control Point characteristic.
pub const HID_CONTROL_POINT_UUID: u16 = 0x2A4C;
/// 16-bit UUID of the Client Characteristic Configuration descriptor.
pub const CCC_DESCRIPTOR_UUID: u16 = 0x2902;

/// Length of the keyboard report descriptor below.
pub const HID_REPORT_MAP_LEN: usize = 47;

/// HID report descriptor of a keyboard with report ID 1: one modifier byte,
/// one reserved byte and six key slots.
pub const HID_REPORT_MAP: [u8; 47] = [
    0x05, 0x01, // Usage Page (Generic Desktop)
    0x09, 0x06, // Usage (Keyboard)
    0xA1, 0x01, // Collection (Application)
    0x85, 0x01, //   Report ID (1)
    0x05, 0x07, //   Usage Page (Keyboard/Keypad)
    0x19, 0xE0, //   Usage Minimum (Left Control)
    0x29, 0xE7, //   Usage Maximum (Right GUI)
    0x15, 0x00, //   Logical Minimum (0)
    0x25, 0x01, //   Logical Maximum (1)
    0x75, 0x01, //   Report Size (1)
    0x95, 0x08, //   Report Count (8)
    0x81, 0x02, //   Input (Data, Variable, Absolute) - modifier byte
    0x95, 0x01, //   Report Count (1)
    0x75, 0x08, //   Report Size (8)
    0x81, 0x01, //   Input (Constant) - reserved byte
    0x95, 0x06, //   Report Count (6)
    0x75, 0x08, //   Report Size (8)
    0x15, 0x00, //   Logical Minimum (0)
    0x25, 0x65, //   Logical Maximum (101)
    0x05, 0x07, //   Usage Page (Keyboard/Keypad)
    0x19, 0x00, //   Usage Minimum (0)
    0x29, 0x65, //   Usage Maximum (101)
    0x81, 0x00, //   Input (Data, Array) - six key slots
    0xC0, // End Collection
];

/// HID Information: bcdHID 1.11, country code 0, flags RemoteWake | NormallyConnectable.
pub const HID_INFO: [u8; 4] = [0x11, 0x01, 0x00, 0x02];

/// Report ID of the keyboard input report.
pub const KEYBOARD_REPORT_ID: u8 = 0x01;
/// Most bytes of the report map that one read answers.
pub const REPORT_MAP_CHUNK: usize = 22;

/// The report descriptor as a sequence.
pub open spec fn report_map() -> Seq<u8> {
    HID_REPORT_MAP@
}

/// A standard 8-byte keyboard input report that holds `keycode` in its first
/// key slot and nothing else: no modifier, reserved byte 0, no other key.
pub open spec fn key_report(keycode: u8) -> Seq<u8> {
    seq![0u8, 0u8, keycode, 0u8, 0u8, 0u8, 0u8, 0u8]
}

/// The report of no key held: eight zero bytes.
pub open spec fn release_report() -> Seq<u8> {
    key_report(0)
}

/// What a read of the report characteristic answers: the report ID, then
/// eight zero bytes (no key held).
pub open spec fn report_read_value() -> Seq<u8> {
    seq![KEYBOARD_REPORT_ID, 0u8, 0u8, 0u8, 0u8, 0u8, 0u8, 0u8, 0u8]
}

/// What a read of the report map at `offset` answers: at most
/// `REPORT_MAP_CHUNK` bytes from `offset` on, nothing past the end.
pub open spec fn report_map_chunk(offset: int) -> Seq<u8> {
    if 0 <= offset < report_map().len() {
        let end = if offset + REPORT_MAP_CHUNK < report_map().len() {
            offset + REPORT_MAP_CHUNK
        } else {
            report_map().len() as int
        };
        report_map().subrange(offset, end)
    } else {
        Seq::empty()
    }
}

/// Builds the keyboard input report with `keycode` in the first key slot.
pub fn keyboard_report(keycode: u8) -> (report: Vec<u8>)
    ensures
        report@ == key_report(keycode),
{
    let report = vec![0u8, 0u8, keycode, 0u8, 0u8, 0u8, 0u8, 0u8];
    assert(report@ =~= key_report(keycode));
    report
}

/// The bytes that answer a read of the report characteristic.
pub fn report_characteristic_value() -> (value: Vec<u8>)
    ensures
        value@ == report_read_value(),
{
    let value = vec![KEYBOARD_REPORT_ID, 0u8, 0u8, 0u8, 0u8, 0u8, 0u8, 0u8, 0u8];
    assert(value@ =~= report_read_value());
    value
}

/// The part of the report map that a read at `offset` answers.
pub fn read_report_map(offset: usize) -> (chunk: Vec<u8>)
    ensures
        chunk@ == report_map_chunk(offset as int),
{
    let mut chunk: Vec<u8> = Vec::new();
    if offset >= HID_REPORT_MAP_LEN {
        assert(chunk@ =~= report_map_chunk(offset as int));
        return chunk;
    }
    let end: usize = if offset + REPORT_MAP_CHUNK < HID_REPORT_MAP_LEN {
        offset + REPORT_MAP_CHUNK
    } else {
        HID_REPORT_MAP_LEN
    };
    let mut i: usize = offset;
    while i < end
        invariant
            offset <= i <= end <= HID_REPORT_MAP_LEN,
            report_map().len() == HID_REPORT_MAP_LEN,
            chunk@ =~= report_map().subrange(offset as int, i as int),
        decreases end - i,
    {
        chunk.push(HID_REPORT_MAP[i]);
        i = i + 1;
    }
    chunk
}

/// Copies the HID Information bytes.
pub fn hid_information() -> (info: Vec<u8>)
    ensures
        info@ == HID_INFO@,
{
    let info = vec![HID_INFO[0], HID_INFO[1], HID_INFO[2], HID_INFO[3]];
    assert(info@ =~= HID_INFO@);
    info
}

/// Reading the report map from offset 0 on, one chunk after the other,
/// gives back the whole report map.
pub open spec fn long_read(offset: nat) -> Seq<u8>
    decreases report_map().len() - offset,
{
    if offset + REPORT_MAP_CHUNK < report_map().len() {
        report_map_chunk(offset as int) + long_read((offset + REPORT_MAP_CHUNK) as nat)
    } else {
        report_map_chunk(offset as int)
    }
}

/// A host that reads the report map chunk by chunk, each read at the offset
/// where the previous one ended, reassembles exactly the report map from that
/// offset on.
pub proof fn lemma_long_read_reassembles(offset: nat)
    requires
        offset <= report_map().len(),
    ensures
        long_read(offset) == report_map().subrange(offset as int, report_map().len() as int),
    decreases report_map().len() - offset,
{
    if offset < report_map().len() {
        let next = (offset + REPORT_MAP_CHUNK) as nat;
        if next < report_map().len() {
            lemma_long_read_reassembles(next);
        }
        assert(long_read(offset) =~= report_map().subrange(offset as int, report_map().len() as int));
    } else {
        assert(long_read(offset) =~= report_map().subrange(offset as int, report_map().len() as int));
    }
}

} // verus!

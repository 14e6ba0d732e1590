use ble_page_turner::hid::{
    hid_information, keyboard_report, read_report_map, HID_INFO, HID_REPORT_MAP, KEYBOARD_REPORT_ID,
    report_characteristic_value,
    HID_REPORT_MAP_LEN, REPORT_MAP_CHUNK,
};

#[test]
fn report_map_is_a_keyboard_descriptor() {
    assert_eq!(HID_REPORT_MAP.len(), HID_REPORT_MAP_LEN);
    assert_eq!(HID_REPORT_MAP_LEN, 47);
    assert_eq!(&HID_REPORT_MAP[..4], &[0x05, 0x01, 0x09, 0x06]);
    assert_eq!(HID_REPORT_MAP[46], 0xC0);
}

#[test]
fn report_map_reads_in_chunks_of_22() {
    assert_eq!(REPORT_MAP_CHUNK, 22);
    assert_eq!(read_report_map(0), HID_REPORT_MAP[0..22].to_vec());
    assert_eq!(read_report_map(22), HID_REPORT_MAP[22..44].to_vec());
    assert_eq!(read_report_map(44), HID_REPORT_MAP[44..47].to_vec());
    assert_eq!(read_report_map(46), vec![0xC0]);
    assert!(read_report_map(47).is_empty());
    assert!(read_report_map(600).is_empty());
}

#[test]
fn long_read_reassembles_report_map() {
    let mut offset = 0;
    let mut all = Vec::new();
    loop {
        let chunk = read_report_map(offset);
        if chunk.is_empty() {
            break;
        }
        offset += chunk.len();
        all.extend(chunk);
    }
    assert_eq!(all, HID_REPORT_MAP.to_vec());
}

#[test]
fn keyboard_report_holds_key_in_first_slot() {
    assert_eq!(keyboard_report(0x4E), vec![0, 0, 0x4E, 0, 0, 0, 0, 0]);
    assert_eq!(keyboard_report(0), vec![0u8; 8]);
}

#[test]
fn report_characteristic_read_value() {
    assert_eq!(report_characteristic_value(), vec![0x01, 0, 0, 0, 0, 0, 0, 0, 0]);
    assert_eq!(KEYBOARD_REPORT_ID, 0x01);
}

#[test]
fn hid_information_bytes() {
    assert_eq!(hid_information(), HID_INFO.to_vec());
    assert_eq!(HID_INFO, [0x11, 0x01, 0x00, 0x02]);
}

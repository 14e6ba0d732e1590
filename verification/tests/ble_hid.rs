use ble_page_turner::ble_hid::{
    advertising_data, advertising_params, esp_err_t_to_result, gap_event_action, AddrType, AdvChannels,
    AdvFilterPolicy, AdvType, AdvertisingParams,
    BleError, BleKeyboard, GapAction, GapEvent, GattsAction, GattsEvent, Permissions, Properties,
    ESP_GATT_IF_NONE, HID_SERVICE_NUM_HANDLES, KEYBOARD_APPEARANCE, KEY_RELEASE_DELAY_MS,
};
use ble_page_turner::hid::{
    CCC_DESCRIPTOR_UUID, HID_CONTROL_POINT_UUID, HID_INFO, HID_INFO_UUID, HID_REPORT_CHAR_UUID,
    HID_REPORT_MAP, HID_REPORT_MAP_UUID, HID_SERVICE_UUID,
};

const IF: u8 = 3;
const SVC: u16 = 40;

fn set_up() -> BleKeyboard {
    let mut kb = BleKeyboard::new("BLE PageTurner").unwrap();
    kb.handle_gatts_event(IF, GattsEvent::Registered);
    kb.handle_gatts_event(IF, GattsEvent::ServiceCreated { service_handle: SVC });
    kb.handle_gatts_event(IF, GattsEvent::CharacteristicAdded { service_handle: SVC, char_uuid: HID_REPORT_MAP_UUID, attr_handle: 42 });
    kb.handle_gatts_event(IF, GattsEvent::CharacteristicAdded { service_handle: SVC, char_uuid: HID_INFO_UUID, attr_handle: 44 });
    kb.handle_gatts_event(IF, GattsEvent::CharacteristicAdded { service_handle: SVC, char_uuid: HID_CONTROL_POINT_UUID, attr_handle: 46 });
    kb.handle_gatts_event(IF, GattsEvent::CharacteristicAdded { service_handle: SVC, char_uuid: HID_REPORT_CHAR_UUID, attr_handle: 48 });
    kb
}

#[test]
fn new_keeps_name_and_starts_disconnected() {
    let kb = BleKeyboard::new("BLE PageTurner").unwrap();
    assert_eq!(kb.device_name(), b"BLE PageTurner");
    assert!(!kb.is_connected());
    let link = kb.link();
    assert_eq!(link.gatts_if, ESP_GATT_IF_NONE);
    assert_eq!(link.report_handle, 0);
}

#[test]
fn new_rejects_nul_byte() {
    match BleKeyboard::new("ab\0c\0") {
        Err(e) => assert_eq!(e, BleError::InteriorNul { position: 2 }),
        Ok(_) => panic!("a name with a NUL byte was accepted"),
    }
    assert!(BleKeyboard::new("").is_ok());
}

#[test]
fn esp_status_to_result() {
    assert_eq!(esp_err_t_to_result(0), Ok(()));
    assert_eq!(esp_err_t_to_result(-1), Err(BleError::Esp(-1)));
    assert_eq!(esp_err_t_to_result(0x110d), Err(BleError::Esp(0x110d)));
}

#[test]
fn registration_creates_service_and_advertises() {
    let mut kb = BleKeyboard::new("kb").unwrap();
    let actions = kb.handle_gatts_event(IF, GattsEvent::Registered);
    assert_eq!(
        actions,
        vec![
            GattsAction::CreateService { gatts_if: IF, service_uuid: HID_SERVICE_UUID, num_handles: HID_SERVICE_NUM_HANDLES },
            GattsAction::ConfigureAdvertising(advertising_data()),
        ]
    );
    assert_eq!(kb.link().gatts_if, IF);
    assert_eq!(HID_SERVICE_UUID, 0x1812);
    assert_eq!(HID_SERVICE_NUM_HANDLES, 20);
}

#[test]
fn characteristics_are_added_in_chain() {
    let mut kb = BleKeyboard::new("kb").unwrap();
    let read = Permissions { read: true, write: false };
    let prop_read = Properties { read: true, write_no_response: false, notify: false };
    assert_eq!(
        kb.handle_gatts_event(IF, GattsEvent::ServiceCreated { service_handle: SVC }),
        vec![
            GattsAction::StartService { service_handle: SVC },
            GattsAction::AddCharacteristic { service_handle: SVC, uuid: HID_REPORT_MAP_UUID, permissions: read, properties: prop_read },
        ]
    );
    assert_eq!(
        kb.handle_gatts_event(IF, GattsEvent::CharacteristicAdded { service_handle: SVC, char_uuid: HID_REPORT_MAP_UUID, attr_handle: 42 }),
        vec![GattsAction::AddCharacteristic { service_handle: SVC, uuid: HID_INFO_UUID, permissions: read, properties: prop_read }]
    );
    assert_eq!(
        kb.handle_gatts_event(IF, GattsEvent::CharacteristicAdded { service_handle: SVC, char_uuid: HID_INFO_UUID, attr_handle: 44 }),
        vec![GattsAction::AddCharacteristic {
            service_handle: SVC,
            uuid: HID_CONTROL_POINT_UUID,
            permissions: Permissions { read: false, write: true },
            properties: Properties { read: false, write_no_response: true, notify: false },
        }]
    );
    assert_eq!(
        kb.handle_gatts_event(IF, GattsEvent::CharacteristicAdded { service_handle: SVC, char_uuid: HID_CONTROL_POINT_UUID, attr_handle: 46 }),
        vec![GattsAction::AddCharacteristic {
            service_handle: SVC,
            uuid: HID_REPORT_CHAR_UUID,
            permissions: Permissions { read: true, write: true },
            properties: Properties { read: true, write_no_response: false, notify: true },
        }]
    );
    assert_eq!(
        kb.handle_gatts_event(IF, GattsEvent::CharacteristicAdded { service_handle: SVC, char_uuid: HID_REPORT_CHAR_UUID, attr_handle: 48 }),
        vec![GattsAction::AddDescriptor { service_handle: SVC, uuid: CCC_DESCRIPTOR_UUID, permissions: Permissions { read: true, write: true } }]
    );
    assert_eq!(
        kb.handle_gatts_event(IF, GattsEvent::CharacteristicAdded { service_handle: SVC, char_uuid: 0x1234, attr_handle: 50 }),
        vec![]
    );
    let link = kb.link();
    assert_eq!((link.report_map_handle, link.info_handle, link.report_handle), (42, 44, 48));
}

#[test]
fn reads_answer_by_handle() {
    let mut kb = set_up();
    let read = |kb: &mut BleKeyboard, handle: u16, offset: u16, is_long: bool| -> Vec<u8> {
        match kb.handle_gatts_event(9, GattsEvent::Read { conn_id: 1, trans_id: 77, handle, offset, is_long }).pop() {
            Some(GattsAction::SendReadResponse { gatts_if, conn_id, trans_id, handle: h, value }) => {
                assert_eq!((gatts_if, conn_id, trans_id, h), (9, 1, 77, handle));
                value
            }
            other => panic!("unexpected answer {:?}", other),
        }
    };
    assert_eq!(read(&mut kb, 42, 0, false), HID_REPORT_MAP[0..22].to_vec());
    assert_eq!(read(&mut kb, 42, 22, false), HID_REPORT_MAP[0..22].to_vec());
    assert_eq!(read(&mut kb, 42, 22, true), HID_REPORT_MAP[22..44].to_vec());
    assert_eq!(read(&mut kb, 42, 44, true), HID_REPORT_MAP[44..47].to_vec());
    assert_eq!(read(&mut kb, 42, 47, true), Vec::<u8>::new());
    assert_eq!(read(&mut kb, 44, 0, false), HID_INFO.to_vec());
    assert_eq!(read(&mut kb, 48, 0, false), vec![0x01, 0, 0, 0, 0, 0, 0, 0, 0]);
    assert_eq!(read(&mut kb, 99, 0, false), Vec::<u8>::new());
}

#[test]
fn writes_are_acknowledged_when_asked() {
    let mut kb = set_up();
    assert_eq!(
        kb.handle_gatts_event(5, GattsEvent::Write { conn_id: 2, trans_id: 8, handle: 46, need_rsp: true }),
        vec![GattsAction::SendWriteResponse { gatts_if: 5, conn_id: 2, trans_id: 8 }]
    );
    assert_eq!(
        kb.handle_gatts_event(5, GattsEvent::Write { conn_id: 2, trans_id: 8, handle: 46, need_rsp: false }),
        vec![]
    );
}

#[test]
fn key_goes_to_connected_host() {
    let mut kb = set_up();
    assert_eq!(kb.send_key(0x4E), Err(BleError::NotConnected));
    let bda = [1, 2, 3, 4, 5, 6];
    assert_eq!(
        kb.handle_gatts_event(IF, GattsEvent::Connected { conn_id: 7, remote_bda: bda }),
        vec![GattsAction::RequestEncryption { remote_bda: bda }]
    );
    assert!(kb.is_connected());
    let stroke = kb.send_key(0x4E).unwrap();
    assert_eq!((stroke.gatts_if, stroke.conn_id, stroke.handle), (IF, 7, 48));
    assert_eq!(stroke.press, vec![0, 0, 0x4E, 0, 0, 0, 0, 0]);
    assert_eq!(stroke.release, vec![0u8; 8]);
    assert_eq!(stroke.release_delay_ms, KEY_RELEASE_DELAY_MS);
    assert_eq!(
        kb.handle_gatts_event(IF, GattsEvent::Disconnected),
        vec![GattsAction::ConfigureAdvertising(advertising_data())]
    );
    assert!(!kb.is_connected());
    assert_eq!(kb.send_key(0x4E), Err(BleError::NotConnected));
}

#[test]
fn key_needs_report_handle() {
    let mut kb = BleKeyboard::new("kb").unwrap();
    kb.handle_gatts_event(IF, GattsEvent::Connected { conn_id: 1, remote_bda: [0; 6] });
    assert_eq!(kb.send_key(0x4E), Err(BleError::ReportHandleNotSet));
}

#[test]
fn other_events_change_nothing() {
    let mut kb = set_up();
    let before = kb.link();
    for e in [GattsEvent::DescriptorAdded, GattsEvent::ServiceStarted, GattsEvent::Other] {
        assert_eq!(kb.handle_gatts_event(IF, e), vec![]);
    }
    assert_eq!(kb.link(), before);
}

#[test]
fn gap_events() {
    assert_eq!(gap_event_action(GapEvent::AdvDataSetComplete), GapAction::StartAdvertising(advertising_params()));
    assert_eq!(
        advertising_params(),
        AdvertisingParams {
            interval_min: 0x20,
            interval_max: 0x40,
            adv_type: AdvType::ConnectableUndirected,
            own_addr_type: AddrType::Public,
            peer_addr: [0; 6],
            peer_addr_type: AddrType::Public,
            channels: AdvChannels::All,
            filter_policy: AdvFilterPolicy::ScanAnyConnectAny,
        }
    );
    let bda = [9, 8, 7, 6, 5, 4];
    assert_eq!(gap_event_action(GapEvent::SecurityRequest { bd_addr: bda }), GapAction::AcceptSecurityRequest { bd_addr: bda });
    assert_eq!(gap_event_action(GapEvent::AdvStartComplete), GapAction::Nothing);
    assert_eq!(gap_event_action(GapEvent::AuthComplete), GapAction::Nothing);
    assert_eq!(gap_event_action(GapEvent::PasskeyNotification), GapAction::Nothing);
}

#[test]
fn advertising_data_is_a_keyboard() {
    let d = advertising_data();
    assert!(d.include_name && d.include_txpower && !d.set_scan_rsp);
    assert_eq!((d.min_interval, d.max_interval), (0x0006, 0x0010));
    assert_eq!(d.appearance, KEYBOARD_APPEARANCE);
    assert_eq!(KEYBOARD_APPEARANCE, 0x03C1);
    assert!(d.general_discoverable && d.br_edr_not_supported);
}

#[test]
fn error_messages() {
    assert_eq!(BleError::NotConnected.message(), "Not connected");
    assert_eq!(BleError::ReportHandleNotSet.message(), "HID report handle not set");
    assert_eq!(BleError::Esp(0x110d).message(), "ESP error: 4365");
    assert_eq!(BleError::Esp(-1).message(), "ESP error: -1");
    assert_eq!(BleError::Esp(i32::MIN).message(), format!("ESP error: {}", i32::MIN));
    assert_eq!(BleError::Esp(0).message(), "ESP error: 0");
    assert_eq!(
        BleError::InteriorNul { position: 2 }.message(),
        "nul byte found in provided data at position: 2"
    );
}

#[test]
fn connection_follows_last_connect_or_disconnect() {
    let mut kb = BleKeyboard::new("kb").unwrap();
    assert!(!kb.is_connected());
    let conn = GattsEvent::Connected { conn_id: 1, remote_bda: [0; 6] };
    for (event, expected) in [
        (GattsEvent::Registered, false),
        (conn, true),
        (GattsEvent::Other, true),
        (GattsEvent::Disconnected, false),
        (GattsEvent::ServiceStarted, false),
        (conn, true),
        (conn, true),
        (GattsEvent::Disconnected, false),
    ] {
        kb.handle_gatts_event(IF, event);
        assert_eq!(kb.is_connected(), expected);
    }
}

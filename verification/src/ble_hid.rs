use vstd::prelude::*;
use vstd::string::{StringExecFns, StringSliceAdditionalSpecFns};

use crate::hid::{
    hid_information, key_report, keyboard_report, read_report_map, release_report,
    report_characteristic_value, report_read_value,
    report_map_chunk, CCC_DESCRIPTOR_UUID, HID_CONTROL_POINT_UUID, HID_INFO, HID_INFO_UUID,
    HID_REPORT_CHAR_UUID, HID_REPORT_MAP, HID_REPORT_MAP_UUID, HID_SERVICE_UUID,
};

verus! {

/// ESP-IDF's success code (`ESP_OK`).
pub const ESP_OK: i32 = 0;
/// ESP-IDF's "no GATT interface yet" value (`ESP_GATT_IF_NONE`).
pub const ESP_GATT_IF_NONE: u8 = 0xff;
/// Application ID under which the GATT server registers.
pub const HID_APP_ID: u16 = 0x1234;
/// Number of attribute handles that the HID service reserves.
pub const HID_SERVICE_NUM_HANDLES: u16 = 20;
/// Pause between the key-press and the key-release notification.
pub const KEY_RELEASE_DELAY_MS: u32 = 20;
/// GAP appearance value of a keyboard.
pub const KEYBOARD_APPEARANCE: i32 = 0x03C1;

/// Why an operation of the keyboard failed.
#[derive(Debug, Clone, Copy, PartialEq, Eq)]
pub enum BleError {
    /// The device name holds a NUL byte at this byte position.
    InteriorNul { position: usize },
    /// An ESP-IDF call returned this error code.
    Esp(i32),
    /// No host is connected.
    NotConnected,
    /// The HID report characteristic has no handle yet.
    ReportHandleNotSet,
}

/// The character of the decimal digit `d`.
pub open spec fn digit_char(d: nat) -> char {
    (48 + d) as char
}

/// The decimal digits of `n`, most significant first, without leading zeros.
pub open spec fn decimal(n: nat) -> Seq<char>
    decreases n,
{
    if n < 10 {
        seq![digit_char(n)]
    } else {
        decimal(n / 10) + seq![digit_char(n % 10)]
    }
}

/// `i` written in decimal, with a leading '-' when negative.
pub open spec fn int_text(i: int) -> Seq<char> {
    if i < 0 {
        seq!['-'] + decimal((-i) as nat)
    } else {
        decimal(i as nat)
    }
}

/// The text that describes an error.
pub open spec fn error_text(e: BleError) -> Seq<char> {
    match e {
        BleError::InteriorNul { position } => "nul byte found in provided data at position: "@
            + decimal(position as nat),
        BleError::Esp(code) => "ESP error: "@ + int_text(code as int),
        BleError::NotConnected => "Not connected"@,
        BleError::ReportHandleNotSet => "HID report handle not set"@,
    }
}

/// Appends the decimal digit `d`.
fn append_digit(text: &mut String, d: u64)
    requires
        d < 10,
    ensures
        final(text)@ == old(text)@ + seq![digit_char(d as nat)],
{
    proof {
        reveal_strlit("0");
        reveal_strlit("1");
        reveal_strlit("2");
        reveal_strlit("3");
        reveal_strlit("4");
        reveal_strlit("5");
        reveal_strlit("6");
        reveal_strlit("7");
        reveal_strlit("8");
        reveal_strlit("9");
    }
    if d == 0 {
        text.append("0");
    } else if d == 1 {
        text.append("1");
    } else if d == 2 {
        text.append("2");
    } else if d == 3 {
        text.append("3");
    } else if d == 4 {
        text.append("4");
    } else if d == 5 {
        text.append("5");
    } else if d == 6 {
        text.append("6");
    } else if d == 7 {
        text.append("7");
    } else if d == 8 {
        text.append("8");
    } else {
        text.append("9");
    }
}

/// Appends `n` in decimal.
fn append_decimal(text: &mut String, n: u64)
    ensures
        final(text)@ == old(text)@ + decimal(n as nat),
    decreases n,
{
    if n >= 10 {
        append_decimal(text, n / 10);
    }
    append_digit(text, n % 10);
    proof {
        if n >= 10 {
            assert(decimal(n as nat) == decimal((n / 10) as nat) + seq![digit_char((n % 10) as nat)]);
        }
    }
}

impl BleError {
    /// The text that describes the error.
    pub fn message(&self) -> (text: String)
        ensures
            text@ == error_text(*self),
    {
        let mut text = String::new();
        match *self {
            BleError::InteriorNul { position } => {
                text.append("nul byte found in provided data at position: ");
                append_decimal(&mut text, position as u64);
            },
            BleError::Esp(code) => {
                text.append("ESP error: ");
                if code < 0 {
                    proof {
                        reveal_strlit("-");
                    }
                    text.append("-");
                    append_decimal(&mut text, (-(code as i64)) as u64);
                } else {
                    append_decimal(&mut text, code as u64);
                }
            },
            BleError::NotConnected => {
                text.append("Not connected");
            },
            BleError::ReportHandleNotSet => {
                text.append("HID report handle not set");
            },
        }
        assert(text@ =~= error_text(*self));
        text
    }
}

/// Turns an ESP-IDF status code into a result: `ESP_OK` succeeds, every
/// other code is an error that carries it.
pub fn esp_err_t_to_result(err: i32) -> (res: Result<(), BleError>)
    ensures
        err == ESP_OK ==> res == Ok::<(), BleError>(()),
        err != ESP_OK ==> res == Err::<(), BleError>(BleError::Esp(err)),
{
    if err == ESP_OK {
        Ok(())
    } else {
        Err(BleError::Esp(err))
    }
}

/// Access permissions of a GATT attribute.
#[derive(Debug, Clone, Copy, PartialEq, Eq)]
pub struct Permissions {
    pub read: bool,
    pub write: bool,
}

/// Properties of a GATT characteristic.
#[derive(Debug, Clone, Copy, PartialEq, Eq)]
pub struct Properties {
    pub read: bool,
    pub write_no_response: bool,
    pub notify: bool,
}

/// Advertising data of the keyboard.
#[derive(Debug, Clone, Copy, PartialEq, Eq)]
pub struct AdvertisingData {
    pub set_scan_rsp: bool,
    pub include_name: bool,
    pub include_txpower: bool,
    pub min_interval: i32,
    pub max_interval: i32,
    pub appearance: i32,
    pub general_discoverable: bool,
    pub br_edr_not_supported: bool,
}

/// Kind of advertising PDU.
#[derive(Debug, Clone, Copy, PartialEq, Eq)]
pub enum AdvType {
    /// Connectable, scannable, undirected (`ADV_IND`).
    ConnectableUndirected,
    /// Connectable, directed, high duty cycle.
    DirectedHighDuty,
    /// Scannable, not connectable.
    Scannable,
    /// Neither connectable nor scannable.
    NonConnectable,
    /// Connectable, directed, low duty cycle.
    DirectedLowDuty,
}

/// Kind of Bluetooth device address.
#[derive(Debug, Clone, Copy, PartialEq, Eq)]
pub enum AddrType {
    Public,
    Random,
    ResolvablePublic,
    ResolvableRandom,
}

/// Advertising channels used.
#[derive(Debug, Clone, Copy, PartialEq, Eq)]
pub enum AdvChannels {
    Channel37,
    Channel38,
    Channel39,
    All,
}

/// Which devices may scan and connect.
#[derive(Debug, Clone, Copy, PartialEq, Eq)]
pub enum AdvFilterPolicy {
    ScanAnyConnectAny,
    ScanWhitelistConnectAny,
    ScanAnyConnectWhitelist,
    ScanWhitelistConnectWhitelist,
}

/// Parameters with which advertising starts.
#[derive(Debug, Clone, Copy, PartialEq, Eq)]
pub struct AdvertisingParams {
    pub interval_min: u16,
    pub interval_max: u16,
    pub adv_type: AdvType,
    pub own_addr_type: AddrType,
    pub peer_addr: [u8; 6],
    pub peer_addr_type: AddrType,
    pub channels: AdvChannels,
    pub filter_policy: AdvFilterPolicy,
}

/// The keyboard's advertising data: its name and TX power, a keyboard
/// appearance, general discoverable, LE only.
pub open spec fn keyboard_advertising_data() -> AdvertisingData {
    AdvertisingData {
        set_scan_rsp: false,
        include_name: true,
        include_txpower: true,
        min_interval: 0x0006,
        max_interval: 0x0010,
        appearance: KEYBOARD_APPEARANCE,
        general_discoverable: true,
        br_edr_not_supported: true,
    }
}

/// The keyboard's advertising parameters: connectable, undirected
/// advertising on all channels from the public address, with no peer
/// (public type, zero address), open to scans and connections from any device.
pub open spec fn keyboard_advertising_params() -> AdvertisingParams {
    AdvertisingParams {
        interval_min: 0x20,
        interval_max: 0x40,
        adv_type: AdvType::ConnectableUndirected,
        own_addr_type: AddrType::Public,
        peer_addr: [0u8, 0u8, 0u8, 0u8, 0u8, 0u8],
        peer_addr_type: AddrType::Public,
        channels: AdvChannels::All,
        filter_policy: AdvFilterPolicy::ScanAnyConnectAny,
    }
}

/// The advertising data that the keyboard configures.
pub fn advertising_data() -> (data: AdvertisingData)
    ensures
        data == keyboard_advertising_data(),
{
    AdvertisingData {
        set_scan_rsp: false,
        include_name: true,
        include_txpower: true,
        min_interval: 0x0006,
        max_interval: 0x0010,
        appearance: KEYBOARD_APPEARANCE,
        general_discoverable: true,
        br_edr_not_supported: true,
    }
}

/// The advertising parameters with which the keyboard starts advertising.
pub fn advertising_params() -> (params: AdvertisingParams)
    ensures
        params == keyboard_advertising_params(),
{
    AdvertisingParams {
        interval_min: 0x20,
        interval_max: 0x40,
        adv_type: AdvType::ConnectableUndirected,
        own_addr_type: AddrType::Public,
        peer_addr: [0u8, 0u8, 0u8, 0u8, 0u8, 0u8],
        peer_addr_type: AddrType::Public,
        channels: AdvChannels::All,
        filter_policy: AdvFilterPolicy::ScanAnyConnectAny,
    }
}

/// A GAP event, with the data of its parameter that the keyboard reads.
#[derive(Debug, Clone, Copy, PartialEq, Eq)]
pub enum GapEvent {
    AdvDataSetComplete,
    AdvStartComplete,
    SecurityRequest { bd_addr: [u8; 6] },
    AuthComplete,
    PasskeyNotification,
    Other,
}

/// What the keyboard does on a GAP event.
#[derive(Debug, Clone, Copy, PartialEq, Eq)]
pub enum GapAction {
    /// Start advertising with these parameters.
    StartAdvertising(AdvertisingParams),
    /// Accept the peer's security request.
    AcceptSecurityRequest { bd_addr: [u8; 6] },
    /// Nothing but a log line.
    Nothing,
}

/// Once the advertising data is set, advertising starts; a security request
/// of a peer is accepted; every other event is only logged.
pub fn gap_event_action(event: GapEvent) -> (action: GapAction)
    ensures
        action == (match event {
            GapEvent::AdvDataSetComplete => GapAction::StartAdvertising(
                keyboard_advertising_params(),
            ),
            GapEvent::SecurityRequest { bd_addr } => GapAction::AcceptSecurityRequest { bd_addr },
            _ => GapAction::Nothing,
        }),
{
    match event {
        GapEvent::AdvDataSetComplete => GapAction::StartAdvertising(advertising_params()),
        GapEvent::SecurityRequest { bd_addr } => GapAction::AcceptSecurityRequest { bd_addr },
        _ => GapAction::Nothing,
    }
}

/// A GATT server event, with the data of its parameter that the keyboard reads.
#[derive(Debug, Clone, Copy, PartialEq, Eq)]
pub enum GattsEvent {
    Registered,
    ServiceCreated { service_handle: u16 },
    CharacteristicAdded { service_handle: u16, char_uuid: u16, attr_handle: u16 },
    DescriptorAdded,
    ServiceStarted,
    Connected { conn_id: u16, remote_bda: [u8; 6] },
    Disconnected,
    Read { conn_id: u16, trans_id: u32, handle: u16, offset: u16, is_long: bool },
    Write { conn_id: u16, trans_id: u32, handle: u16, need_rsp: bool },
    Other,
}

/// A call that the GATT server makes in answer to an event.
#[derive(Debug, PartialEq, Eq)]
pub enum GattsAction {
    /// Create the primary service `service_uuid` (instance 0).
    CreateService { gatts_if: u8, service_uuid: u16, num_handles: u16 },
    /// Configure the advertising data (which, once set, starts advertising).
    ConfigureAdvertising(AdvertisingData),
    StartService { service_handle: u16 },
    AddCharacteristic {
        service_handle: u16,
        uuid: u16,
        permissions: Permissions,
        properties: Properties,
    },
    AddDescriptor { service_handle: u16, uuid: u16, permissions: Permissions },
    /// Ask the peer for an encrypted link with MITM protection.
    RequestEncryption { remote_bda: [u8; 6] },
    /// Answer a read with status OK and these bytes.
    SendReadResponse { gatts_if: u8, conn_id: u16, trans_id: u32, handle: u16, value: Vec<u8> },
    /// Answer a write with status OK and no data.
    SendWriteResponse { gatts_if: u8, conn_id: u16, trans_id: u32 },
}

/// `GattsAction` with its bytes as a sequence.
pub enum GattsActionView {
    CreateService { gatts_if: u8, service_uuid: u16, num_handles: u16 },
    ConfigureAdvertising(AdvertisingData),
    StartService { service_handle: u16 },
    AddCharacteristic {
        service_handle: u16,
        uuid: u16,
        permissions: Permissions,
        properties: Properties,
    },
    AddDescriptor { service_handle: u16, uuid: u16, permissions: Permissions },
    RequestEncryption { remote_bda: [u8; 6] },
    SendReadResponse { gatts_if: u8, conn_id: u16, trans_id: u32, handle: u16, value: Seq<u8> },
    SendWriteResponse { gatts_if: u8, conn_id: u16, trans_id: u32 },
}

impl View for GattsAction {
    type V = GattsActionView;

    open spec fn view(&self) -> GattsActionView {
        match self {
            GattsAction::CreateService { gatts_if, service_uuid, num_handles } => {
                GattsActionView::CreateService {
                    gatts_if: *gatts_if,
                    service_uuid: *service_uuid,
                    num_handles: *num_handles,
                }
            },
            GattsAction::ConfigureAdvertising(d) => GattsActionView::ConfigureAdvertising(*d),
            GattsAction::StartService { service_handle } => GattsActionView::StartService {
                service_handle: *service_handle,
            },
            GattsAction::AddCharacteristic { service_handle, uuid, permissions, properties } => {
                GattsActionView::AddCharacteristic {
                    service_handle: *service_handle,
                    uuid: *uuid,
                    permissions: *permissions,
                    properties: *properties,
                }
            },
            GattsAction::AddDescriptor { service_handle, uuid, permissions } => {
                GattsActionView::AddDescriptor {
                    service_handle: *service_handle,
                    uuid: *uuid,
                    permissions: *permissions,
                }
            },
            GattsAction::RequestEncryption { remote_bda } => GattsActionView::RequestEncryption {
                remote_bda: *remote_bda,
            },
            GattsAction::SendReadResponse { gatts_if, conn_id, trans_id, handle, value } => {
                GattsActionView::SendReadResponse {
                    gatts_if: *gatts_if,
                    conn_id: *conn_id,
                    trans_id: *trans_id,
                    handle: *handle,
                    value: value@,
                }
            },
            GattsAction::SendWriteResponse { gatts_if, conn_id, trans_id } => {
                GattsActionView::SendWriteResponse {
                    gatts_if: *gatts_if,
                    conn_id: *conn_id,
                    trans_id: *trans_id,
                }
            },
        }
    }
}

/// What the GATT server has learnt: the link to the host and the handles of
/// the HID characteristics.
#[derive(Debug, Clone, Copy, PartialEq, Eq)]
pub struct LinkState {
    pub connected: bool,
    pub conn_id: u16,
    pub gatts_if: u8,
    pub report_handle: u16,
    pub report_map_handle: u16,
    pub info_handle: u16,
}

/// The state before any event: no host, no interface, no handles.
pub open spec fn initial_link() -> LinkState {
    LinkState {
        connected: false,
        conn_id: 0,
        gatts_if: ESP_GATT_IF_NONE,
        report_handle: 0,
        report_map_handle: 0,
        info_handle: 0,
    }
}

/// Read permission only.
pub open spec fn read_only() -> Permissions {
    Permissions { read: true, write: false }
}

/// Write permission only.
pub open spec fn write_only() -> Permissions {
    Permissions { read: false, write: true }
}

/// Read and write permission.
pub open spec fn read_write() -> Permissions {
    Permissions { read: true, write: true }
}

/// The read property only.
pub open spec fn prop_read() -> Properties {
    Properties { read: true, write_no_response: false, notify: false }
}

/// The write-without-response property only.
pub open spec fn prop_write_no_response() -> Properties {
    Properties { read: false, write_no_response: true, notify: false }
}

/// The read and notify properties.
pub open spec fn prop_read_notify() -> Properties {
    Properties { read: true, write_no_response: false, notify: true }
}

/// The state after an event: registration records the interface, the added
/// characteristics record their handles, a connection records the host and
/// a disconnection forgets it.
pub open spec fn next_link(link: LinkState, gatts_if: u8, event: GattsEvent) -> LinkState {
    match event {
        GattsEvent::Registered => LinkState { gatts_if, ..link },
        GattsEvent::CharacteristicAdded { char_uuid, attr_handle, .. } => {
            if char_uuid == HID_REPORT_MAP_UUID {
                LinkState { report_map_handle: attr_handle, ..link }
            } else if char_uuid == HID_INFO_UUID {
                LinkState { info_handle: attr_handle, ..link }
            } else if char_uuid == HID_REPORT_CHAR_UUID {
                LinkState { report_handle: attr_handle, ..link }
            } else {
                link
            }
        },
        GattsEvent::Connected { conn_id, .. } => LinkState { connected: true, conn_id, ..link },
        GattsEvent::Disconnected => LinkState { connected: false, ..link },
        _ => link,
    }
}

/// The bytes that answer a read of `handle`: a chunk of the report map
/// (from `offset` for a long read, else from 0), the HID information, an
/// report ID followed by eight zero bytes, or nothing for any other handle.
pub open spec fn read_response(link: LinkState, handle: u16, offset: u16, is_long: bool) -> Seq<u8> {
    if handle == link.report_map_handle {
        report_map_chunk(
            if is_long {
                offset as int
            } else {
                0
            },
        )
    } else if handle == link.info_handle {
        HID_INFO@
    } else if handle == link.report_handle {
        report_read_value()
    } else {
        Seq::empty()
    }
}

/// The characteristic (or descriptor) that the server adds once the
/// characteristic `char_uuid` has been added: report map, information,
/// control point, report, and last the report's configuration descriptor.
pub open spec fn after_characteristic(service_handle: u16, char_uuid: u16) -> Seq<GattsActionView> {
    if char_uuid == HID_REPORT_MAP_UUID {
        seq![
            GattsActionView::AddCharacteristic {
                service_handle,
                uuid: HID_INFO_UUID,
                permissions: read_only(),
                properties: prop_read(),
            },
        ]
    } else if char_uuid == HID_INFO_UUID {
        seq![
            GattsActionView::AddCharacteristic {
                service_handle,
                uuid: HID_CONTROL_POINT_UUID,
                permissions: write_only(),
                properties: prop_write_no_response(),
            },
        ]
    } else if char_uuid == HID_CONTROL_POINT_UUID {
        seq![
            GattsActionView::AddCharacteristic {
                service_handle,
                uuid: HID_REPORT_CHAR_UUID,
                permissions: read_write(),
                properties: prop_read_notify(),
            },
        ]
    } else if char_uuid == HID_REPORT_CHAR_UUID {
        seq![
            GattsActionView::AddDescriptor {
                service_handle,
                uuid: CCC_DESCRIPTOR_UUID,
                permissions: read_write(),
            },
        ]
    } else {
        Seq::empty()
    }
}

/// The calls that answer an event, given the state before it.
pub open spec fn gatts_actions(link: LinkState, gatts_if: u8, event: GattsEvent) -> Seq<
    GattsActionView,
> {
    match event {
        GattsEvent::Registered => seq![
            GattsActionView::CreateService {
                gatts_if,
                service_uuid: HID_SERVICE_UUID,
                num_handles: HID_SERVICE_NUM_HANDLES,
            },
            GattsActionView::ConfigureAdvertising(keyboard_advertising_data()),
        ],
        GattsEvent::ServiceCreated { service_handle } => seq![
            GattsActionView::StartService { service_handle },
            GattsActionView::AddCharacteristic {
                service_handle,
                uuid: HID_REPORT_MAP_UUID,
                permissions: read_only(),
                properties: prop_read(),
            },
        ],
        GattsEvent::CharacteristicAdded { service_handle, char_uuid, .. } => after_characteristic(
            service_handle,
            char_uuid,
        ),
        GattsEvent::Connected { remote_bda, .. } => seq![
            GattsActionView::RequestEncryption { remote_bda },
        ],
        GattsEvent::Disconnected => seq![
            GattsActionView::ConfigureAdvertising(keyboard_advertising_data()),
        ],
        GattsEvent::Read { conn_id, trans_id, handle, offset, is_long } => seq![
            GattsActionView::SendReadResponse {
                gatts_if,
                conn_id,
                trans_id,
                handle,
                value: read_response(link, handle, offset, is_long),
            },
        ],
        GattsEvent::Write { conn_id, trans_id, need_rsp, .. } => if need_rsp {
            seq![GattsActionView::SendWriteResponse { gatts_if, conn_id, trans_id }]
        } else {
            Seq::empty()
        },
        _ => Seq::empty(),
    }
}

/// Why a key stroke cannot go out on `link`, if it cannot: no host is
/// connected, or (checked second) the report characteristic has no handle.
pub open spec fn key_stroke_error(link: LinkState) -> Option<BleError> {
    if !link.connected {
        Some(BleError::NotConnected)
    } else if link.report_handle == 0 {
        Some(BleError::ReportHandleNotSet)
    } else {
        None
    }
}

/// The two notifications of one key stroke, sent to the connected host on
/// the report characteristic: the press, then after a short pause the release.
#[derive(Debug, PartialEq, Eq)]
pub struct KeyStroke {
    pub gatts_if: u8,
    pub conn_id: u16,
    pub handle: u16,
    pub press: Vec<u8>,
    pub release: Vec<u8>,
    pub release_delay_ms: u32,
}

/// The state after a run of events, each delivered on interface `gatts_if`.
pub open spec fn run_gatts_events(link: LinkState, gatts_if: u8, events: Seq<GattsEvent>) -> LinkState
    decreases events.len(),
{
    if events.len() == 0 {
        link
    } else {
        run_gatts_events(next_link(link, gatts_if, events[0]), gatts_if, events.drop_first())
    }
}

/// The events of the HID service's set-up: registration, creation of the
/// service, then the report map, information, control point and report
/// characteristics, each added at its handle.
pub open spec fn hid_setup_events(
    service_handle: u16,
    map_handle: u16,
    info_handle: u16,
    control_handle: u16,
    report_handle: u16,
) -> Seq<GattsEvent> {
    seq![
        GattsEvent::Registered,
        GattsEvent::ServiceCreated { service_handle },
        GattsEvent::CharacteristicAdded {
            service_handle,
            char_uuid: HID_REPORT_MAP_UUID,
            attr_handle: map_handle,
        },
        GattsEvent::CharacteristicAdded {
            service_handle,
            char_uuid: HID_INFO_UUID,
            attr_handle: info_handle,
        },
        GattsEvent::CharacteristicAdded {
            service_handle,
            char_uuid: HID_CONTROL_POINT_UUID,
            attr_handle: control_handle,
        },
        GattsEvent::CharacteristicAdded {
            service_handle,
            char_uuid: HID_REPORT_CHAR_UUID,
            attr_handle: report_handle,
        },
    ]
}

/// After the set-up of the HID service, the server knows its interface and
/// the handles of the report map, information and report characteristics,
/// and the link to the host is as it was.
pub proof fn lemma_setup_learns_handles(
    link: LinkState,
    gatts_if: u8,
    service_handle: u16,
    map_handle: u16,
    info_handle: u16,
    control_handle: u16,
    report_handle: u16,
)
    ensures
        run_gatts_events(
            link,
            gatts_if,
            hid_setup_events(service_handle, map_handle, info_handle, control_handle, report_handle),
        ) == (LinkState {
            connected: link.connected,
            conn_id: link.conn_id,
            gatts_if,
            report_handle,
            report_map_handle: map_handle,
            info_handle,
        }),
{
    lemma_run_gatts_events_unfold(
        link,
        gatts_if,
        hid_setup_events(service_handle, map_handle, info_handle, control_handle, report_handle),
    );
}

/// A run of six events is the six transitions one after the other.
proof fn lemma_run_gatts_events_unfold(link: LinkState, gatts_if: u8, events: Seq<GattsEvent>)
    requires
        events.len() == 6,
    ensures
        run_gatts_events(link, gatts_if, events) == ({
            let l1 = next_link(link, gatts_if, events[0]);
            let l2 = next_link(l1, gatts_if, events[1]);
            let l3 = next_link(l2, gatts_if, events[2]);
            let l4 = next_link(l3, gatts_if, events[3]);
            let l5 = next_link(l4, gatts_if, events[4]);
            next_link(l5, gatts_if, events[5])
        }),
{
    reveal_with_fuel(run_gatts_events, 7);
    let e1 = events.drop_first();
    let e2 = e1.drop_first();
    let e3 = e2.drop_first();
    let e4 = e3.drop_first();
    let e5 = e4.drop_first();
    assert(e5.drop_first().len() == 0);
    assert(e1[0] == events[1]);
    assert(e2[0] == events[2]);
    assert(e3[0] == events[3]);
    assert(e4[0] == events[4]);
    assert(e5[0] == events[5]);
}

/// Once the HID service is set up with three distinct handles, a read of the
/// information handle answers the HID information, a read of the report
/// handle the report ID and eight zero bytes, and a read of the report map handle the
/// chunk of the map at the read's offset (offset 0 for a short read).
pub proof fn lemma_reads_after_setup(
    link: LinkState,
    gatts_if: u8,
    service_handle: u16,
    map_handle: u16,
    info_handle: u16,
    control_handle: u16,
    report_handle: u16,
    offset: u16,
)
    requires
        map_handle != info_handle,
        map_handle != report_handle,
        info_handle != report_handle,
    ensures
        ({
            let after = run_gatts_events(
                link,
                gatts_if,
                hid_setup_events(service_handle, map_handle, info_handle, control_handle, report_handle),
            );
            &&& read_response(after, info_handle, offset, true) == HID_INFO@
            &&& read_response(after, report_handle, offset, true) == report_read_value()
            &&& read_response(after, map_handle, offset, true) == report_map_chunk(offset as int)
            &&& read_response(after, map_handle, offset, false) == report_map_chunk(0)
        }),
{
    lemma_setup_learns_handles(
        link,
        gatts_if,
        service_handle,
        map_handle,
        info_handle,
        control_handle,
        report_handle,
    );
}

/// Whether a host is connected after `events`, when one was (`was`) before
/// them: some event of the run connected a host and no later one
/// disconnected it, or one was connected and no event disconnected it.
pub open spec fn connected_after(was: bool, events: Seq<GattsEvent>) -> bool {
    ||| exists|i: int|
        0 <= i < events.len() && #[trigger] events[i] is Connected && forall|j: int|
            i < j < events.len() ==> !(#[trigger] events[j] is Disconnected)
    ||| was && forall|j: int| 0 <= j < events.len() ==> !(#[trigger] events[j] is Disconnected)
}

/// Over any run of events, the server holds a connected host exactly when a
/// connection of the run was not followed by a disconnection, or a host was
/// connected before and the run disconnected none.
pub proof fn lemma_connected_after_run(link: LinkState, gatts_if: u8, events: Seq<GattsEvent>)
    ensures
        run_gatts_events(link, gatts_if, events).connected == connected_after(
            link.connected,
            events,
        ),
    decreases events.len(),
{
    if events.len() > 0 {
        let e0 = events[0];
        let rest = events.drop_first();
        let l1 = next_link(link, gatts_if, e0);
        lemma_connected_after_run(l1, gatts_if, rest);
        assert forall|j: int| 0 <= j < rest.len() implies rest[j] == events[j + 1] by {}
        if connected_after(l1.connected, rest) {
            if exists|i: int|
                0 <= i < rest.len() && #[trigger] rest[i] is Connected && forall|j: int|
                    i < j < rest.len() ==> !(#[trigger] rest[j] is Disconnected) {
                let i = choose|i: int|
                    0 <= i < rest.len() && #[trigger] rest[i] is Connected && forall|j: int|
                        i < j < rest.len() ==> !(#[trigger] rest[j] is Disconnected);
                assert(events[i + 1] is Connected);
                assert forall|j: int| i + 1 < j < events.len() implies !(
                #[trigger] events[j] is Disconnected) by {
                    assert(events[j] == rest[j - 1]);
                }
            } else if e0 is Connected {
                assert forall|j: int| 0 < j < events.len() implies !(
                #[trigger] events[j] is Disconnected) by {
                    assert(events[j] == rest[j - 1]);
                }
            } else {
                assert forall|j: int| 0 <= j < events.len() implies !(
                #[trigger] events[j] is Disconnected) by {
                    if j > 0 {
                        assert(events[j] == rest[j - 1]);
                    }
                }
            }
        } else {
            if exists|i: int|
                0 <= i < events.len() && #[trigger] events[i] is Connected && forall|j: int|
                    i < j < events.len() ==> !(#[trigger] events[j] is Disconnected) {
                let i = choose|i: int|
                    0 <= i < events.len() && #[trigger] events[i] is Connected && forall|j: int|
                        i < j < events.len() ==> !(#[trigger] events[j] is Disconnected);
                if i > 0 {
                    assert(rest[i - 1] is Connected);
                    assert forall|j: int| i - 1 < j < rest.len() implies !(
                    #[trigger] rest[j] is Disconnected) by {
                        assert(rest[j] == events[j + 1]);
                    }
                } else {
                    assert forall|j: int| 0 <= j < rest.len() implies !(
                    #[trigger] rest[j] is Disconnected) by {
                        assert(rest[j] == events[j + 1]);
                    }
                }
            }
            if link.connected && forall|j: int|
                0 <= j < events.len() ==> !(#[trigger] events[j] is Disconnected) {
                assert(!(events[0] is Disconnected));
                assert forall|j: int| 0 <= j < rest.len() implies !(
                #[trigger] rest[j] is Disconnected) by {
                    assert(rest[j] == events[j + 1]);
                }
            }
        }
    }
}

/// A new keyboard has a connected host exactly when some event since it was
/// made connected one and no later event disconnected it; with no event, it
/// has none.
pub proof fn lemma_connected_since_new(gatts_if: u8, events: Seq<GattsEvent>)
    ensures
        run_gatts_events(initial_link(), gatts_if, events).connected <==> exists|i: int|
            0 <= i < events.len() && #[trigger] events[i] is Connected && forall|j: int|
                i < j < events.len() ==> !(#[trigger] events[j] is Disconnected),
{
    lemma_connected_after_run(initial_link(), gatts_if, events);
}

/// What each event may change: only an added characteristic changes the
/// handles (and only the handle of its own kind), only registration changes
/// the interface, only a connection or disconnection changes whether a host
/// is connected, and only a connection changes the connection ID. A
/// connection records its host; a disconnection forgets it and keeps every
/// handle.
pub proof fn lemma_event_frame(link: LinkState, gatts_if: u8, event: GattsEvent)
    ensures
        ({
            let next = next_link(link, gatts_if, event);
            &&& !(event is CharacteristicAdded) ==> next.report_handle == link.report_handle
                && next.report_map_handle == link.report_map_handle && next.info_handle
                == link.info_handle
            &&& event matches GattsEvent::CharacteristicAdded { char_uuid, attr_handle, .. } ==> {
                &&& next.report_map_handle == (if char_uuid == HID_REPORT_MAP_UUID {
                    attr_handle
                } else {
                    link.report_map_handle
                })
                &&& next.info_handle == (if char_uuid == HID_INFO_UUID {
                    attr_handle
                } else {
                    link.info_handle
                })
                &&& next.report_handle == (if char_uuid == HID_REPORT_CHAR_UUID {
                    attr_handle
                } else {
                    link.report_handle
                })
            }
            &&& next.gatts_if == (if event is Registered {
                gatts_if
            } else {
                link.gatts_if
            })
            &&& !(event is Connected) && !(event is Disconnected) ==> next.connected
                == link.connected
            &&& !(event is Connected) ==> next.conn_id == link.conn_id
            &&& event matches GattsEvent::Connected { conn_id, .. } ==> next.connected
                && next.conn_id == conn_id
            &&& event is Disconnected ==> !next.connected
        }),
{
}

/// A host that reconnects receives key strokes on its new connection: after
/// any connection, disconnection and new connection, the report handle
/// learnt before is still there.
pub proof fn lemma_reconnected_host_receives_keys(
    link: LinkState,
    gatts_if: u8,
    first_id: u16,
    first_bda: [u8; 6],
    second_id: u16,
    second_bda: [u8; 6],
)
    requires
        link.report_handle != 0,
    ensures
        ({
            let l1 = next_link(link, gatts_if, GattsEvent::Connected { conn_id: first_id, remote_bda: first_bda });
            let l2 = next_link(l1, gatts_if, GattsEvent::Disconnected);
            let l3 = next_link(l2, gatts_if, GattsEvent::Connected { conn_id: second_id, remote_bda: second_bda });
            &&& key_stroke_error(l3) == None::<BleError>
            &&& l3.conn_id == second_id
            &&& l3.report_handle == link.report_handle
            &&& l3.gatts_if == link.gatts_if
        }),
{
}

/// Connections and disconnections do not change what reads answer: every
/// handle reads the same before and after them.
pub proof fn lemma_connection_keeps_reads(
    link: LinkState,
    gatts_if: u8,
    event: GattsEvent,
    handle: u16,
    offset: u16,
    is_long: bool,
)
    requires
        event is Connected || event is Disconnected,
    ensures
        read_response(next_link(link, gatts_if, event), handle, offset, is_long) == read_response(
            link,
            handle,
            offset,
            is_long,
        ),
{
    lemma_event_frame(link, gatts_if, event);
}

/// Every write that asks for a response is acknowledged with status OK on its
/// interface, connection and transaction, whatever handle it writes and
/// whatever the server knows; a write that asks for none gets none.
pub proof fn lemma_writes_acknowledged(
    link: LinkState,
    gatts_if: u8,
    conn_id: u16,
    trans_id: u32,
    handle: u16,
    need_rsp: bool,
)
    ensures
        need_rsp ==> gatts_actions(
            link,
            gatts_if,
            GattsEvent::Write { conn_id, trans_id, handle, need_rsp },
        ) =~= seq![GattsActionView::SendWriteResponse { gatts_if, conn_id, trans_id }],
        !need_rsp ==> gatts_actions(
            link,
            gatts_if,
            GattsEvent::Write { conn_id, trans_id, handle, need_rsp },
        ).len() == 0,
{
}

/// Why a key stroke fails is read off the link alone: it goes out exactly
/// when a host is connected and the report characteristic has a handle; with
/// no host it fails for that, and with a host but no handle for the handle.
pub proof fn lemma_key_stroke_error_meaning(link: LinkState)
    ensures
        key_stroke_error(link) is None <==> link.connected && link.report_handle != 0,
        !link.connected ==> key_stroke_error(link) == Some(BleError::NotConnected),
        link.connected && link.report_handle == 0 ==> key_stroke_error(link) == Some(
            BleError::ReportHandleNotSet,
        ),
{
}

/// What a read answers, byte for byte: a read of the report map handle gets
/// up to 22 bytes of the report map from the read's offset (from 0 for a
/// short read), and nothing past its 47 bytes; a read of the information
/// handle gets bcdHID 1.11, country 0, flags 2; a read of the report handle
/// gets report ID 1 and eight zero bytes; a read of any other handle gets
/// nothing. The report map handle is looked up first, then the information
/// handle, then the report handle.
pub proof fn lemma_read_answers(link: LinkState, handle: u16, offset: u16, is_long: bool)
    ensures
        ({
            let value = read_response(link, handle, offset, is_long);
            let start: int = if is_long {
                offset as int
            } else {
                0
            };
            let end: int = if start + 22 < 47 {
                start + 22
            } else {
                47
            };
            &&& handle == link.report_map_handle && start < 47 ==> value
                == HID_REPORT_MAP@.subrange(start, end) && value.len() <= 22
            &&& handle == link.report_map_handle && start >= 47 ==> value.len() == 0
            &&& handle != link.report_map_handle && handle == link.info_handle ==> value
                == seq![0x11u8, 0x01u8, 0x00u8, 0x02u8]
            &&& handle != link.report_map_handle && handle != link.info_handle && handle
                == link.report_handle ==> value == seq![
                0x01u8,
                0u8,
                0u8,
                0u8,
                0u8,
                0u8,
                0u8,
                0u8,
                0u8,
            ]
            &&& handle != link.report_map_handle && handle != link.info_handle && handle
                != link.report_handle ==> value.len() == 0
        }),
{
    assert(HID_INFO@ =~= seq![0x11u8, 0x01u8, 0x00u8, 0x02u8]);
    assert(report_read_value() =~= seq![0x01u8, 0u8, 0u8, 0u8, 0u8, 0u8, 0u8, 0u8, 0u8]);
}

/// How the HID service is built, event by event: registration creates the
/// primary service 0x1812 with 20 handles on its interface and configures
/// advertising; the created service is started and gets the report map
/// characteristic (0x2A4B, readable); each added characteristic is followed
/// by the next one: information (0x2A4A, readable), control point (0x2A4C,
/// writable without response), report (0x2A4D, readable and writable, read
/// and notify), then the report's configuration descriptor (0x2902, readable
/// and writable); any other characteristic is followed by nothing.
pub proof fn lemma_setup_actions(
    link: LinkState,
    gatts_if: u8,
    service_handle: u16,
    char_uuid: u16,
    attr_handle: u16,
)
    ensures
        gatts_actions(link, gatts_if, GattsEvent::Registered) == seq![
            GattsActionView::CreateService { gatts_if, service_uuid: 0x1812, num_handles: 20 },
            GattsActionView::ConfigureAdvertising(keyboard_advertising_data()),
        ],
        gatts_actions(link, gatts_if, GattsEvent::ServiceCreated { service_handle }) == seq![
            GattsActionView::StartService { service_handle },
            GattsActionView::AddCharacteristic {
                service_handle,
                uuid: 0x2A4B,
                permissions: Permissions { read: true, write: false },
                properties: Properties { read: true, write_no_response: false, notify: false },
            },
        ],
        ({
            let actions = gatts_actions(
                link,
                gatts_if,
                GattsEvent::CharacteristicAdded { service_handle, char_uuid, attr_handle },
            );
            &&& char_uuid == 0x2A4B ==> actions == seq![
                GattsActionView::AddCharacteristic {
                    service_handle,
                    uuid: 0x2A4A,
                    permissions: Permissions { read: true, write: false },
                    properties: Properties { read: true, write_no_response: false, notify: false },
                },
            ]
            &&& char_uuid == 0x2A4A ==> actions == seq![
                GattsActionView::AddCharacteristic {
                    service_handle,
                    uuid: 0x2A4C,
                    permissions: Permissions { read: false, write: true },
                    properties: Properties { read: false, write_no_response: true, notify: false },
                },
            ]
            &&& char_uuid == 0x2A4C ==> actions == seq![
                GattsActionView::AddCharacteristic {
                    service_handle,
                    uuid: 0x2A4D,
                    permissions: Permissions { read: true, write: true },
                    properties: Properties { read: true, write_no_response: false, notify: true },
                },
            ]
            &&& char_uuid == 0x2A4D ==> actions == seq![
                GattsActionView::AddDescriptor {
                    service_handle,
                    uuid: 0x2902,
                    permissions: Permissions { read: true, write: true },
                },
            ]
            &&& char_uuid != 0x2A4B && char_uuid != 0x2A4A && char_uuid != 0x2A4C && char_uuid
                != 0x2A4D ==> actions.len() == 0
        }),
{
}

/// A connection asks the new host for an encrypted link with MITM
/// protection; a disconnection configures advertising again, so that a host
/// can reconnect; the other events that only report progress call nothing.
pub proof fn lemma_connection_actions(
    link: LinkState,
    gatts_if: u8,
    conn_id: u16,
    remote_bda: [u8; 6],
)
    ensures
        gatts_actions(link, gatts_if, GattsEvent::Connected { conn_id, remote_bda }) == seq![
            GattsActionView::RequestEncryption { remote_bda },
        ],
        gatts_actions(link, gatts_if, GattsEvent::Disconnected) == seq![
            GattsActionView::ConfigureAdvertising(keyboard_advertising_data()),
        ],
        gatts_actions(link, gatts_if, GattsEvent::DescriptorAdded).len() == 0,
        gatts_actions(link, gatts_if, GattsEvent::ServiceStarted).len() == 0,
        gatts_actions(link, gatts_if, GattsEvent::Other).len() == 0,
{
}

/// The keyboard advertises its name and TX power with a keyboard appearance
/// (0x03C1), general discoverable and LE only, at intervals 0x0006..0x0010
/// in its data and 0x20..0x40 when it starts, connectable and undirected, on
/// all channels from its public address, open to any device.
pub proof fn lemma_advertising_values()
    ensures
        ({
            let d = keyboard_advertising_data();
            &&& d.include_name && d.include_txpower && !d.set_scan_rsp
            &&& d.appearance == 0x03C1 && d.min_interval == 6 && d.max_interval == 0x10
            &&& d.general_discoverable && d.br_edr_not_supported
        }),
        ({
            let p = keyboard_advertising_params();
            &&& p.interval_min == 0x20 && p.interval_max == 0x40
            &&& p.adv_type == AdvType::ConnectableUndirected
            &&& p.own_addr_type == AddrType::Public && p.peer_addr_type == AddrType::Public
            &&& p.peer_addr == [0u8, 0u8, 0u8, 0u8, 0u8, 0u8]
            &&& p.channels == AdvChannels::All
            &&& p.filter_policy == AdvFilterPolicy::ScanAnyConnectAny
        }),
{
}

/// The value of a run of decimal digits.
pub open spec fn digits_value(digits: Seq<char>) -> int
    decreases digits.len(),
{
    if digits.len() == 0 {
        0
    } else {
        digits_value(digits.drop_last()) * 10 + (digits.last() as int - 48)
    }
}

/// `decimal(n)` is a run of decimal digits whose value is `n`, with no
/// leading zero but for 0 itself.
pub proof fn lemma_decimal_is_decimal(n: nat)
    ensures
        decimal(n).len() >= 1,
        forall|i: int| 0 <= i < decimal(n).len() ==> '0' <= #[trigger] decimal(n)[i] <= '9',
        digits_value(decimal(n)) == n,
        n > 0 ==> decimal(n)[0] != '0',
    decreases n,
{
    assert(digit_char(n % 10) as int == 48 + n % 10);
    if n < 10 {
        assert(decimal(n).drop_last() =~= Seq::<char>::empty());
        assert(digits_value(decimal(n).drop_last()) == 0);
        assert(decimal(n).last() == digit_char(n));
        assert(digits_value(decimal(n)) == n);
    } else {
        lemma_decimal_is_decimal(n / 10);
        let d = decimal(n);
        assert(d.drop_last() =~= decimal(n / 10));
        assert(d.last() == digit_char(n % 10));
        assert(forall|i: int| 0 <= i < d.len() - 1 ==> d[i] == decimal(n / 10)[i]);
        assert(digits_value(d) == digits_value(decimal(n / 10)) * 10 + (n % 10));
        assert(digits_value(d) == n);
    }
}

/// A host that has just connected receives key strokes, on its connection,
/// once the report characteristic has a handle.
pub proof fn lemma_connected_host_receives_keys(
    link: LinkState,
    gatts_if: u8,
    conn_id: u16,
    remote_bda: [u8; 6],
)
    requires
        link.report_handle != 0,
    ensures
        key_stroke_error(next_link(link, gatts_if, GattsEvent::Connected { conn_id, remote_bda }))
            == None::<BleError>,
        next_link(link, gatts_if, GattsEvent::Connected { conn_id, remote_bda }).conn_id == conn_id,
{
}

/// Once the host has disconnected, no key stroke goes out until it connects again.
pub proof fn lemma_disconnected_host_receives_no_keys(link: LinkState, gatts_if: u8)
    ensures
        key_stroke_error(next_link(link, gatts_if, GattsEvent::Disconnected)) == Some(
            BleError::NotConnected,
        ),
{
}

/// A BLE HID keyboard: its device name and what its GATT server has learnt.
pub struct BleKeyboard {
    device_name: Vec<u8>,
    link: LinkState,
}

/// Whether `bytes` holds no NUL byte.
pub open spec fn nul_free(bytes: Seq<u8>) -> bool {
    forall|i: int| 0 <= i < bytes.len() ==> bytes[i] != 0u8
}

/// Whether `p` is the position of the first NUL byte of `bytes`.
pub open spec fn is_first_nul(bytes: Seq<u8>, p: int) -> bool {
    0 <= p < bytes.len() && bytes[p] == 0u8 && nul_free(bytes.take(p))
}

impl BleKeyboard {
    #[verifier::type_invariant]
    spec fn name_is_nul_free(self) -> bool {
        nul_free(self.device_name@)
    }

    /// The device name, as bytes.
    pub closed spec fn name(&self) -> Seq<u8> {
        self.device_name@
    }

    /// What the GATT server has learnt so far.
    pub closed spec fn link_state(&self) -> LinkState {
        self.link
    }

    /// A keyboard named `name`, which must hold no NUL byte; the error names
    /// the position of the first one.
    pub fn new(name: &str) -> (res: Result<Self, BleError>)
        ensures
            nul_free(name.spec_bytes()) <==> (res is Ok),
            res matches Ok(kb) ==> kb.name() == name.spec_bytes() && kb.link_state()
                == initial_link(),
            res matches Err(e) ==> (e matches BleError::InteriorNul { position } && is_first_nul(
                name.spec_bytes(),
                position as int,
            )),
    {
        let bytes = name.as_bytes();
        let mut i: usize = 0;
        while i < bytes.len()
            invariant
                0 <= i <= bytes@.len(),
                bytes@ == name.spec_bytes(),
                nul_free(bytes@.take(i as int)),
            decreases bytes@.len() - i,
        {
            if bytes[i] == 0 {
                return Err(BleError::InteriorNul { position: i });
            }
            assert(bytes@.take(i as int + 1) =~= bytes@.take(i as int).push(bytes@[i as int]));
            i = i + 1;
        }
        assert(bytes@.take(i as int) =~= bytes@);
        let device_name = vstd::slice::slice_to_vec(bytes);
        Ok(BleKeyboard {
            device_name,
            link: LinkState {
                connected: false,
                conn_id: 0,
                gatts_if: ESP_GATT_IF_NONE,
                report_handle: 0,
                report_map_handle: 0,
                info_handle: 0,
            },
        })
    }

    /// The device name, as bytes; it holds no NUL byte.
    pub fn device_name(&self) -> (name: &[u8])
        ensures
            name@ == self.name(),
            nul_free(name@),
    {
        proof {
            use_type_invariant(self);
        }
        self.device_name.as_slice()
    }

    /// What the GATT server has learnt so far.
    pub fn link(&self) -> (link: LinkState)
        ensures
            link == self.link_state(),
    {
        self.link
    }

    /// Whether a host is connected.
    pub fn is_connected(&self) -> (res: bool)
        ensures
            res == self.link_state().connected,
    {
        self.link.connected
    }

    /// Handles one event of the GATT server: records what it learns and
    /// returns the calls that answer the event, in order.
    pub fn handle_gatts_event(&mut self, gatts_if: u8, event: GattsEvent) -> (actions: Vec<
        GattsAction,
    >)
        ensures
            final(self).name() == old(self).name(),
            final(self).link_state() == next_link(old(self).link_state(), gatts_if, event),
            actions@.len() == gatts_actions(old(self).link_state(), gatts_if, event).len(),
            forall|i: int|
                0 <= i < actions@.len() ==> #[trigger] actions@[i]@ == gatts_actions(
                    old(self).link_state(),
                    gatts_if,
                    event,
                )[i],
    {
        proof {
            use_type_invariant(&*self);
        }
        let mut actions: Vec<GattsAction> = Vec::new();
        match event {
            GattsEvent::Registered => {
                self.link.gatts_if = gatts_if;
                actions.push(
                    GattsAction::CreateService {
                        gatts_if,
                        service_uuid: HID_SERVICE_UUID,
                        num_handles: HID_SERVICE_NUM_HANDLES,
                    },
                );
                actions.push(GattsAction::ConfigureAdvertising(advertising_data()));
            },
            GattsEvent::ServiceCreated { service_handle } => {
                actions.push(GattsAction::StartService { service_handle });
                actions.push(
                    GattsAction::AddCharacteristic {
                        service_handle,
                        uuid: HID_REPORT_MAP_UUID,
                        permissions: Permissions { read: true, write: false },
                        properties: Properties {
                            read: true,
                            write_no_response: false,
                            notify: false,
                        },
                    },
                );
            },
            GattsEvent::CharacteristicAdded { service_handle, char_uuid, attr_handle } => {
                if char_uuid == HID_REPORT_MAP_UUID {
                    self.link.report_map_handle = attr_handle;
                    actions.push(
                        GattsAction::AddCharacteristic {
                            service_handle,
                            uuid: HID_INFO_UUID,
                            permissions: Permissions { read: true, write: false },
                            properties: Properties {
                                read: true,
                                write_no_response: false,
                                notify: false,
                            },
                        },
                    );
                } else if char_uuid == HID_INFO_UUID {
                    self.link.info_handle = attr_handle;
                    actions.push(
                        GattsAction::AddCharacteristic {
                            service_handle,
                            uuid: HID_CONTROL_POINT_UUID,
                            permissions: Permissions { read: false, write: true },
                            properties: Properties {
                                read: false,
                                write_no_response: true,
                                notify: false,
                            },
                        },
                    );
                } else if char_uuid == HID_CONTROL_POINT_UUID {
                    actions.push(
                        GattsAction::AddCharacteristic {
                            service_handle,
                            uuid: HID_REPORT_CHAR_UUID,
                            permissions: Permissions { read: true, write: true },
                            properties: Properties {
                                read: true,
                                write_no_response: false,
                                notify: true,
                            },
                        },
                    );
                } else if char_uuid == HID_REPORT_CHAR_UUID {
                    self.link.report_handle = attr_handle;
                    actions.push(
                        GattsAction::AddDescriptor {
                            service_handle,
                            uuid: CCC_DESCRIPTOR_UUID,
                            permissions: Permissions { read: true, write: true },
                        },
                    );
                }
            },
            GattsEvent::Connected { conn_id, remote_bda } => {
                self.link.conn_id = conn_id;
                self.link.connected = true;
                actions.push(GattsAction::RequestEncryption { remote_bda });
            },
            GattsEvent::Disconnected => {
                self.link.connected = false;
                actions.push(GattsAction::ConfigureAdvertising(advertising_data()));
            },
            GattsEvent::Read { conn_id, trans_id, handle, offset, is_long } => {
                let value = self.read_value(handle, offset, is_long);
                actions.push(
                    GattsAction::SendReadResponse { gatts_if, conn_id, trans_id, handle, value },
                );
            },
            GattsEvent::Write { conn_id, trans_id, need_rsp, .. } => {
                if need_rsp {
                    actions.push(GattsAction::SendWriteResponse { gatts_if, conn_id, trans_id });
                }
            },
            _ => {},
        }
        actions
    }

    /// The bytes that answer a read of `handle`.
    fn read_value(&self, handle: u16, offset: u16, is_long: bool) -> (value: Vec<u8>)
        ensures
            value@ == read_response(self.link_state(), handle, offset, is_long),
    {
        if handle == self.link.report_map_handle {
            let start: usize = if is_long {
                offset as usize
            } else {
                0
            };
            read_report_map(start)
        } else if handle == self.link.info_handle {
            hid_information()
        } else if handle == self.link.report_handle {
            report_characteristic_value()
        } else {
            Vec::new()
        }
    }

    /// Prepares a key stroke of `keycode` for the connected host: a press
    /// report with the key in its first slot, then a release report. Fails
    /// when no host is connected, or when the report characteristic has no
    /// handle yet.
    pub fn send_key(&mut self, keycode: u8) -> (res: Result<KeyStroke, BleError>)
        ensures
            final(self).name() == old(self).name(),
            final(self).link_state() == old(self).link_state(),
            key_stroke_error(old(self).link_state()) is Some <==> (res is Err),
            res matches Err(e) ==> key_stroke_error(old(self).link_state()) == Some(e),
            res matches Ok(k) ==> k.gatts_if == old(self).link_state().gatts_if && k.conn_id == old(
                self,
            ).link_state().conn_id && k.handle == old(self).link_state().report_handle
                && k.press@ == key_report(keycode) && k.release@ == release_report()
                && k.release_delay_ms == KEY_RELEASE_DELAY_MS,
    {
        if !self.is_connected() {
            return Err(BleError::NotConnected);
        }
        let handle = self.link.report_handle;
        if handle == 0 {
            return Err(BleError::ReportHandleNotSet);
        }
        let press = keyboard_report(keycode);
        let release = keyboard_report(0);
        Ok(
            KeyStroke {
                gatts_if: self.link.gatts_if,
                conn_id: self.link.conn_id,
                handle,
                press,
                release,
                release_delay_ms: KEY_RELEASE_DELAY_MS,
            },
        )
    }
}

} // verus!

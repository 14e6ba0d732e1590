use vstd::prelude::*;

use crate::ble_hid::{esp_err_t_to_result, BleError, BleKeyboard, ESP_OK, HID_APP_ID};

verus! {

/// ESP-IDF: the NVS partition has no free pages (`ESP_ERR_NVS_NO_FREE_PAGES`).
pub const ESP_ERR_NVS_NO_FREE_PAGES: i32 = 0x110d;
/// ESP-IDF: the NVS partition holds data of a newer format (`ESP_ERR_NVS_NEW_VERSION_FOUND`).
pub const ESP_ERR_NVS_NEW_VERSION_FOUND: i32 = 0x1110;
/// Authentication requirement: bonding.
pub const LE_AUTH_BOND: u8 = 0x01;
/// IO capability: no input, no output.
pub const IO_CAP_NONE: u8 = 3;
/// Keys to distribute: the encryption key and the identity key.
pub const KEY_DISTRIBUTION: u8 = 0x03;
/// Largest encryption key size, in bytes.
pub const MAX_ENC_KEY_SIZE: u8 = 16;

/// A security parameter of the GAP layer.
#[derive(Debug, Clone, Copy, PartialEq, Eq)]
pub enum SecurityParam {
    AuthReqMode,
    IoCapMode,
    InitKey,
    RspKey,
    MaxKeySize,
}

/// Mode of the Bluetooth controller.
#[derive(Debug, Clone, Copy, PartialEq, Eq)]
pub enum BtMode {
    Idle,
    /// Bluetooth Low Energy only.
    Ble,
    /// Classic Bluetooth only.
    Classic,
    /// Both.
    Dual,
}

/// Configuration of the Bluetooth controller (the fields of ESP-IDF's
/// `esp_bt_controller_config_t` but its magic value, which the caller
/// takes from the ESP-IDF that it builds with).
#[derive(Debug, Clone, Copy, PartialEq, Eq)]
pub struct ControllerConfig {
    pub controller_task_stack_size: u16,
    pub controller_task_prio: u8,
    pub hci_uart_no: u8,
    pub hci_uart_baudrate: u32,
    pub scan_duplicate_mode: u8,
    pub scan_duplicate_type: u8,
    pub normal_adv_size: u16,
    pub mesh_adv_size: u16,
    pub send_adv_reserved_size: u16,
    pub controller_debug_flag: u32,
    pub mode: BtMode,
    pub ble_max_conn: u8,
    pub bt_max_acl_conn: u8,
    pub bt_sco_datapath: u8,
    pub auto_latency: bool,
    pub bt_legacy_auth_vs_evt: bool,
    pub bt_max_sync_conn: u8,
    pub ble_sca: u8,
    pub pcm_role: u8,
    pub pcm_polar: u8,
    pub hli: bool,
    pub dup_list_refresh_period: u16,
    pub ble_scan_backoff: bool,
}

/// The controller configuration of the keyboard: ESP-IDF v5.2.2's defaults
/// for the ESP32, in BLE-only mode with up to 3 connections, the controller
/// task on a 4096-byte stack at priority 23, high-level interrupts on.
pub open spec fn keyboard_controller_config() -> ControllerConfig {
    ControllerConfig {
        controller_task_stack_size: 4096,
        controller_task_prio: 23,
        hci_uart_no: 1,
        hci_uart_baudrate: 921600,
        scan_duplicate_mode: 0,
        scan_duplicate_type: 0,
        normal_adv_size: 20,
        mesh_adv_size: 0,
        send_adv_reserved_size: 1000,
        controller_debug_flag: 0,
        mode: BtMode::Ble,
        ble_max_conn: 3,
        bt_max_acl_conn: 0,
        bt_sco_datapath: 0,
        auto_latency: false,
        bt_legacy_auth_vs_evt: false,
        bt_max_sync_conn: 0,
        ble_sca: 0,
        pcm_role: 0,
        pcm_polar: 0,
        hli: true,
        dup_list_refresh_period: 0,
        ble_scan_backoff: false,
    }
}

/// The controller configuration of the keyboard.
pub fn controller_config() -> (config: ControllerConfig)
    ensures
        config == keyboard_controller_config(),
{
    ControllerConfig {
        controller_task_stack_size: 4096,
        controller_task_prio: 23,
        hci_uart_no: 1,
        hci_uart_baudrate: 921600,
        scan_duplicate_mode: 0,
        scan_duplicate_type: 0,
        normal_adv_size: 20,
        mesh_adv_size: 0,
        send_adv_reserved_size: 1000,
        controller_debug_flag: 0,
        mode: BtMode::Ble,
        ble_max_conn: 3,
        bt_max_acl_conn: 0,
        bt_sco_datapath: 0,
        auto_latency: false,
        bt_legacy_auth_vs_evt: false,
        bt_max_sync_conn: 0,
        ble_sca: 0,
        pcm_role: 0,
        pcm_polar: 0,
        hli: true,
        dup_list_refresh_period: 0,
        ble_scan_backoff: false,
    }
}

/// One call of the bring-up of the BLE stack. The caller makes the call that
/// the step names and hands its outcome to `BleKeyboard::start`, which
/// answers the next step. Bring-up begins at `InitNvs` and ends at `Done`.
#[derive(Debug, Clone, Copy, PartialEq, Eq)]
pub enum StartupStep {
    /// Initialise the NVS flash; outcome: its status.
    InitNvs,
    /// Erase the NVS flash; outcome: its status.
    EraseNvs,
    /// Initialise the NVS flash again; outcome: its status.
    ReinitNvs,
    /// Initialise the Bluetooth controller with `config`; outcome: its status.
    InitController { config: ControllerConfig },
    /// Enable the controller in `mode`; outcome: its status.
    EnableController { mode: BtMode },
    /// Initialise Bluedroid; outcome: its status.
    InitBluedroid,
    /// Enable Bluedroid; outcome: its status.
    EnableBluedroid,
    /// Count the bonded devices; outcome: the count.
    CountBonds,
    /// List up to `capacity` bonded devices into a list of that size;
    /// outcome: `Listed` with the status of the listing and the number of
    /// devices it listed.
    ListBonds { capacity: i32 },
    /// Remove the first `count` devices of that list, in order; outcome: ignored.
    RemoveBonds { count: i32 },
    /// Register the GATT server callback; outcome: its status.
    RegisterGattsCallback,
    /// Register the GAP callback; outcome: its status.
    RegisterGapCallback,
    /// Register the GATT application `app_id`; outcome: its status.
    RegisterApp { app_id: u16 },
    /// Set the device name to `BleKeyboard::device_name`; outcome: its status.
    SetDeviceName,
    /// Set a security parameter to `value`; outcome: ignored.
    SetSecurityParam { param: SecurityParam, value: u8 },
    /// The stack is up.
    Done,
}

/// What the call of a step returned.
#[derive(Debug, Clone, Copy, PartialEq, Eq)]
pub enum StepOutcome {
    /// The call's return value.
    Returned(i32),
    /// The bond listing's status, and how many devices it listed.
    Listed { status: i32, count: i32 },
}

/// The status (or, for `CountBonds`, the count) that a call returned.
pub open spec fn status_of(outcome: StepOutcome) -> i32 {
    match outcome {
        StepOutcome::Returned(code) => code,
        StepOutcome::Listed { status, .. } => status,
    }
}

/// How many devices a listing listed (none when only a status came back).
pub open spec fn listed_of(outcome: StepOutcome) -> i32 {
    match outcome {
        StepOutcome::Returned(_) => 0,
        StepOutcome::Listed { count, .. } => count,
    }
}

/// The number of listed devices to remove: the listing's count, kept within
/// the list it filled.
pub open spec fn removal_count(listed: i32, capacity: i32) -> i32 {
    if listed < 0 {
        0
    } else if listed > capacity {
        capacity
    } else {
        listed
    }
}

/// Whether bring-up ends when the step's call fails.
pub open spec fn is_checked(step: StartupStep) -> bool {
    match step {
        StartupStep::EraseNvs
        | StartupStep::ReinitNvs
        | StartupStep::InitController { .. }
        | StartupStep::EnableController { .. }
        | StartupStep::InitBluedroid
        | StartupStep::EnableBluedroid
        | StartupStep::RegisterGattsCallback
        | StartupStep::RegisterGapCallback
        | StartupStep::RegisterApp { .. }
        | StartupStep::SetDeviceName => true,
        _ => false,
    }
}

/// The step that follows `step` on the main line of bring-up.
pub open spec fn successor(step: StartupStep) -> StartupStep {
    match step {
        StartupStep::InitNvs => StartupStep::InitController { config: keyboard_controller_config() },
        StartupStep::EraseNvs => StartupStep::ReinitNvs,
        StartupStep::ReinitNvs => StartupStep::InitController {
            config: keyboard_controller_config(),
        },
        StartupStep::InitController { .. } => StartupStep::EnableController { mode: BtMode::Ble },
        StartupStep::EnableController { .. } => StartupStep::InitBluedroid,
        StartupStep::InitBluedroid => StartupStep::EnableBluedroid,
        StartupStep::EnableBluedroid => StartupStep::CountBonds,
        StartupStep::CountBonds => StartupStep::RegisterGattsCallback,
        StartupStep::ListBonds { .. } => StartupStep::RegisterGattsCallback,
        StartupStep::RemoveBonds { .. } => StartupStep::RegisterGattsCallback,
        StartupStep::RegisterGattsCallback => StartupStep::RegisterGapCallback,
        StartupStep::RegisterGapCallback => StartupStep::RegisterApp { app_id: HID_APP_ID },
        StartupStep::RegisterApp { .. } => StartupStep::SetDeviceName,
        StartupStep::SetDeviceName => StartupStep::SetSecurityParam {
            param: SecurityParam::AuthReqMode,
            value: LE_AUTH_BOND,
        },
        StartupStep::SetSecurityParam { param, .. } => match param {
            SecurityParam::AuthReqMode => StartupStep::SetSecurityParam {
                param: SecurityParam::IoCapMode,
                value: IO_CAP_NONE,
            },
            SecurityParam::IoCapMode => StartupStep::SetSecurityParam {
                param: SecurityParam::InitKey,
                value: KEY_DISTRIBUTION,
            },
            SecurityParam::InitKey => StartupStep::SetSecurityParam {
                param: SecurityParam::RspKey,
                value: KEY_DISTRIBUTION,
            },
            SecurityParam::RspKey => StartupStep::SetSecurityParam {
                param: SecurityParam::MaxKeySize,
                value: MAX_ENC_KEY_SIZE,
            },
            SecurityParam::MaxKeySize => StartupStep::Done,
        },
        StartupStep::Done => StartupStep::Done,
    }
}

/// `next` when `code` reports success, else the error that carries `code`.
pub open spec fn checked(code: i32, next: StartupStep) -> Result<StartupStep, BleError> {
    if code == ESP_OK {
        Ok(next)
    } else {
        Err(BleError::Esp(code))
    }
}

/// The step after `step`, given the outcome of its call. A full NVS
/// partition, or one of a newer format, is erased first; bonded devices, if
/// any, are listed and, when the listing succeeds, removed; a checked step
/// that fails ends bring-up with its code; every other step moves on.
pub open spec fn startup_next(step: StartupStep, outcome: StepOutcome) -> Result<
    StartupStep,
    BleError,
> {
    let status = status_of(outcome);
    match step {
        StartupStep::InitNvs => if status == ESP_ERR_NVS_NO_FREE_PAGES || status
            == ESP_ERR_NVS_NEW_VERSION_FOUND {
            Ok(StartupStep::EraseNvs)
        } else {
            Ok(successor(step))
        },
        StartupStep::CountBonds => if status > 0 {
            Ok(StartupStep::ListBonds { capacity: status })
        } else {
            Ok(successor(step))
        },
        StartupStep::ListBonds { capacity } => if status == ESP_OK {
            Ok(StartupStep::RemoveBonds { count: removal_count(listed_of(outcome), capacity) })
        } else {
            Ok(successor(step))
        },
        _ => if is_checked(step) {
            checked(status, successor(step))
        } else {
            Ok(successor(step))
        },
    }
}

/// How many steps at most are left before `Done`.
pub open spec fn steps_left(step: StartupStep) -> nat {
    match step {
        StartupStep::InitNvs => 19,
        StartupStep::EraseNvs => 18,
        StartupStep::ReinitNvs => 17,
        StartupStep::InitController { .. } => 16,
        StartupStep::EnableController { .. } => 15,
        StartupStep::InitBluedroid => 14,
        StartupStep::EnableBluedroid => 13,
        StartupStep::CountBonds => 12,
        StartupStep::ListBonds { .. } => 11,
        StartupStep::RemoveBonds { .. } => 10,
        StartupStep::RegisterGattsCallback => 9,
        StartupStep::RegisterGapCallback => 8,
        StartupStep::RegisterApp { .. } => 7,
        StartupStep::SetDeviceName => 6,
        StartupStep::SetSecurityParam { param, .. } => match param {
            SecurityParam::AuthReqMode => 5,
            SecurityParam::IoCapMode => 4,
            SecurityParam::InitKey => 3,
            SecurityParam::RspKey => 2,
            SecurityParam::MaxKeySize => 1,
        },
        StartupStep::Done => 0,
    }
}

/// The controller runs Bluetooth Low Energy only, with up to 3 connections,
/// its task on a 4096-byte stack at priority 23, over HCI UART 1 at 921600
/// baud, with high-level interrupts on.
pub proof fn lemma_controller_values()
    ensures
        ({
            let c = keyboard_controller_config();
            &&& c.mode == BtMode::Ble
            &&& c.ble_max_conn == 3
            &&& c.controller_task_stack_size == 4096 && c.controller_task_prio == 23
            &&& c.hci_uart_no == 1 && c.hci_uart_baudrate == 921600
            &&& c.normal_adv_size == 20 && c.send_adv_reserved_size == 1000
            &&& c.hli && !c.auto_latency && !c.ble_scan_backoff
            &&& c.bt_max_acl_conn == 0 && c.bt_max_sync_conn == 0
        }),
{
}

/// Every bonded device is cleared: any positive bond count leads to a listing
/// of that many devices, and a successful listing to the removal of every
/// device it listed; with no bond (or a failed count) bring-up moves on to
/// the callbacks.
pub proof fn lemma_bonds_cleared(n: i32, listed: i32, status: i32)
    ensures
        n > 0 ==> startup_next(StartupStep::CountBonds, StepOutcome::Returned(n)) == Ok::<
            StartupStep,
            BleError,
        >(StartupStep::ListBonds { capacity: n }),
        n <= 0 ==> startup_next(StartupStep::CountBonds, StepOutcome::Returned(n)) == Ok::<
            StartupStep,
            BleError,
        >(StartupStep::RegisterGattsCallback),
        n > 0 && 0 <= listed <= n ==> startup_next(
            StartupStep::ListBonds { capacity: n },
            StepOutcome::Listed { status: ESP_OK, count: listed },
        ) == Ok::<StartupStep, BleError>(StartupStep::RemoveBonds { count: listed }),
        status != ESP_OK ==> startup_next(
            StartupStep::ListBonds { capacity: n },
            StepOutcome::Listed { status, count: listed },
        ) == Ok::<StartupStep, BleError>(StartupStep::RegisterGattsCallback),
        forall|o: StepOutcome|
            startup_next(StartupStep::RemoveBonds { count: listed }, o) == Ok::<
                StartupStep,
                BleError,
            >(StartupStep::RegisterGattsCallback),
{
}

/// The NVS partition is erased (and then initialised again) exactly when the
/// first initialisation finds it full or of a newer format; any other
/// outcome goes on to the controller with the keyboard's configuration.
pub proof fn lemma_nvs_recovery(code: i32, again: i32)
    ensures
        (code == ESP_ERR_NVS_NO_FREE_PAGES || code == ESP_ERR_NVS_NEW_VERSION_FOUND) ==> startup_next(
            StartupStep::InitNvs,
            StepOutcome::Returned(code),
        ) == Ok::<StartupStep, BleError>(StartupStep::EraseNvs),
        !(code == ESP_ERR_NVS_NO_FREE_PAGES || code == ESP_ERR_NVS_NEW_VERSION_FOUND)
            ==> startup_next(StartupStep::InitNvs, StepOutcome::Returned(code)) == Ok::<
            StartupStep,
            BleError,
        >(StartupStep::InitController { config: keyboard_controller_config() }),
        again == ESP_OK ==> startup_next(StartupStep::EraseNvs, StepOutcome::Returned(again))
            == Ok::<StartupStep, BleError>(StartupStep::ReinitNvs),
        again == ESP_OK ==> startup_next(StartupStep::ReinitNvs, StepOutcome::Returned(again))
            == Ok::<StartupStep, BleError>(
            StartupStep::InitController { config: keyboard_controller_config() },
        ),
{
}

/// A failed call of any checked step ends bring-up with that call's code,
/// and a successful one never does.
pub proof fn lemma_failed_call_ends_startup(step: StartupStep, code: i32)
    requires
        step == StartupStep::EraseNvs || step == StartupStep::ReinitNvs || step is InitController
            || step is EnableController || step == StartupStep::InitBluedroid || step
            == StartupStep::EnableBluedroid || step == StartupStep::RegisterGattsCallback || step
            == StartupStep::RegisterGapCallback || step is RegisterApp || step
            == StartupStep::SetDeviceName,
    ensures
        code != ESP_OK ==> startup_next(step, StepOutcome::Returned(code)) == Err::<
            StartupStep,
            BleError,
        >(BleError::Esp(code)),
        code == ESP_OK ==> startup_next(step, StepOutcome::Returned(code)) is Ok,
{
}

/// Once the stack runs, whatever the calls return: the controller is
/// enabled in BLE mode only after its initialisation; Bluedroid is
/// initialised, then enabled, then the bonds are counted; the callbacks, the
/// application (`HID_APP_ID`) and the device name are registered in that
/// order; then the five security parameters are set in order (bonding, no
/// IO, encryption and identity keys both ways, 16-byte keys), whatever those
/// calls return, and bring-up is done.
pub proof fn lemma_startup_order(config: ControllerConfig, mode: BtMode, app_id: u16, o: StepOutcome)
    ensures
        status_of(o) == ESP_OK ==> {
            &&& startup_next(StartupStep::InitController { config }, o) == Ok::<StartupStep, BleError>(
                StartupStep::EnableController { mode: BtMode::Ble },
            )
            &&& startup_next(StartupStep::EnableController { mode }, o) == Ok::<StartupStep, BleError>(
                StartupStep::InitBluedroid,
            )
            &&& startup_next(StartupStep::InitBluedroid, o) == Ok::<StartupStep, BleError>(
                StartupStep::EnableBluedroid,
            )
            &&& startup_next(StartupStep::EnableBluedroid, o) == Ok::<StartupStep, BleError>(
                StartupStep::CountBonds,
            )
            &&& startup_next(StartupStep::RegisterGattsCallback, o) == Ok::<StartupStep, BleError>(
                StartupStep::RegisterGapCallback,
            )
            &&& startup_next(StartupStep::RegisterGapCallback, o) == Ok::<StartupStep, BleError>(
                StartupStep::RegisterApp { app_id: HID_APP_ID },
            )
            &&& startup_next(StartupStep::RegisterApp { app_id }, o) == Ok::<StartupStep, BleError>(
                StartupStep::SetDeviceName,
            )
            &&& startup_next(StartupStep::SetDeviceName, o) == Ok::<StartupStep, BleError>(
                StartupStep::SetSecurityParam { param: SecurityParam::AuthReqMode, value: 0x01 },
            )
        },
        startup_next(
            StartupStep::SetSecurityParam { param: SecurityParam::AuthReqMode, value: 0x01 },
            o,
        ) == Ok::<StartupStep, BleError>(
            StartupStep::SetSecurityParam { param: SecurityParam::IoCapMode, value: 3 },
        ),
        startup_next(StartupStep::SetSecurityParam { param: SecurityParam::IoCapMode, value: 3 }, o)
            == Ok::<StartupStep, BleError>(
            StartupStep::SetSecurityParam { param: SecurityParam::InitKey, value: 0x03 },
        ),
        startup_next(StartupStep::SetSecurityParam { param: SecurityParam::InitKey, value: 0x03 }, o)
            == Ok::<StartupStep, BleError>(
            StartupStep::SetSecurityParam { param: SecurityParam::RspKey, value: 0x03 },
        ),
        startup_next(StartupStep::SetSecurityParam { param: SecurityParam::RspKey, value: 0x03 }, o)
            == Ok::<StartupStep, BleError>(
            StartupStep::SetSecurityParam { param: SecurityParam::MaxKeySize, value: 16 },
        ),
        startup_next(StartupStep::SetSecurityParam { param: SecurityParam::MaxKeySize, value: 16 }, o)
            == Ok::<StartupStep, BleError>(StartupStep::Done),
        startup_next(StartupStep::Done, o) == Ok::<StartupStep, BleError>(StartupStep::Done),
{
}

/// Where bring-up stands after the calls of `step` and its successors
/// returned `outcomes`, one after the other: a step, or the error that ended it.
pub open spec fn run_startup(step: StartupStep, outcomes: Seq<StepOutcome>) -> Result<
    StartupStep,
    BleError,
>
    decreases outcomes.len(),
{
    if outcomes.len() == 0 {
        Ok(step)
    } else {
        match startup_next(step, outcomes[0]) {
            Ok(next) => run_startup(next, outcomes.drop_first()),
            Err(e) => Err(e),
        }
    }
}

/// Bring-up always ends: whatever the calls return, after as many calls as
/// `steps_left` counts it has either failed or reached `Done`.
pub proof fn lemma_startup_finishes(step: StartupStep, outcomes: Seq<StepOutcome>)
    requires
        outcomes.len() >= steps_left(step),
    ensures
        run_startup(step, outcomes) matches Ok(last) ==> last == StartupStep::Done,
    decreases outcomes.len(),
{
    if outcomes.len() > 0 {
        match startup_next(step, outcomes[0]) {
            Ok(next) => {
                if step == StartupStep::Done {
                    lemma_done_stays_done(outcomes.drop_first());
                } else {
                    lemma_startup_finishes(next, outcomes.drop_first());
                }
            },
            Err(_) => {},
        }
    } else {
        assert(step == StartupStep::Done);
    }
}

/// Once the stack is up, nothing more happens.
pub proof fn lemma_done_stays_done(outcomes: Seq<StepOutcome>)
    ensures
        run_startup(StartupStep::Done, outcomes) == Ok::<StartupStep, BleError>(StartupStep::Done),
    decreases outcomes.len(),
{
    if outcomes.len() > 0 {
        lemma_done_stays_done(outcomes.drop_first());
    }
}

/// The step that follows `step` on the main line of bring-up.
fn next_step(step: StartupStep) -> (next: StartupStep)
    ensures
        next == successor(step),
{
    match step {
        StartupStep::InitNvs | StartupStep::ReinitNvs => StartupStep::InitController {
            config: controller_config(),
        },
        StartupStep::EraseNvs => StartupStep::ReinitNvs,
        StartupStep::InitController { .. } => StartupStep::EnableController { mode: BtMode::Ble },
        StartupStep::EnableController { .. } => StartupStep::InitBluedroid,
        StartupStep::InitBluedroid => StartupStep::EnableBluedroid,
        StartupStep::EnableBluedroid => StartupStep::CountBonds,
        StartupStep::CountBonds
        | StartupStep::ListBonds { .. }
        | StartupStep::RemoveBonds { .. } => StartupStep::RegisterGattsCallback,
        StartupStep::RegisterGattsCallback => StartupStep::RegisterGapCallback,
        StartupStep::RegisterGapCallback => StartupStep::RegisterApp { app_id: HID_APP_ID },
        StartupStep::RegisterApp { .. } => StartupStep::SetDeviceName,
        StartupStep::SetDeviceName => StartupStep::SetSecurityParam {
            param: SecurityParam::AuthReqMode,
            value: LE_AUTH_BOND,
        },
        StartupStep::SetSecurityParam { param, .. } => match param {
            SecurityParam::AuthReqMode => StartupStep::SetSecurityParam {
                param: SecurityParam::IoCapMode,
                value: IO_CAP_NONE,
            },
            SecurityParam::IoCapMode => StartupStep::SetSecurityParam {
                param: SecurityParam::InitKey,
                value: KEY_DISTRIBUTION,
            },
            SecurityParam::InitKey => StartupStep::SetSecurityParam {
                param: SecurityParam::RspKey,
                value: KEY_DISTRIBUTION,
            },
            SecurityParam::RspKey => StartupStep::SetSecurityParam {
                param: SecurityParam::MaxKeySize,
                value: MAX_ENC_KEY_SIZE,
            },
            SecurityParam::MaxKeySize => StartupStep::Done,
        },
        StartupStep::Done => StartupStep::Done,
    }
}

/// Whether bring-up ends when the step's call fails.
fn step_is_checked(step: StartupStep) -> (res: bool)
    ensures
        res == is_checked(step),
{
    match step {
        StartupStep::EraseNvs
        | StartupStep::ReinitNvs
        | StartupStep::InitController { .. }
        | StartupStep::EnableController { .. }
        | StartupStep::InitBluedroid
        | StartupStep::EnableBluedroid
        | StartupStep::RegisterGattsCallback
        | StartupStep::RegisterGapCallback
        | StartupStep::RegisterApp { .. }
        | StartupStep::SetDeviceName => true,
        _ => false,
    }
}

impl BleKeyboard {
    /// Decides the bring-up of the BLE stack: given a step and the outcome
    /// of its call, the next step, or the error of a failed call that ends
    /// the bring-up.
    pub fn start(&self, step: StartupStep, outcome: StepOutcome) -> (res: Result<
        StartupStep,
        BleError,
    >)
        ensures
            res == startup_next(step, outcome),
            step != StartupStep::Done && res is Ok ==> steps_left(res->Ok_0) < steps_left(step),
    {
        let status = match outcome {
            StepOutcome::Returned(code) => code,
            StepOutcome::Listed { status, .. } => status,
        };
        match step {
            StartupStep::InitNvs => {
                if status == ESP_ERR_NVS_NO_FREE_PAGES || status == ESP_ERR_NVS_NEW_VERSION_FOUND {
                    Ok(StartupStep::EraseNvs)
                } else {
                    Ok(next_step(step))
                }
            },
            StartupStep::CountBonds => {
                if status > 0 {
                    Ok(StartupStep::ListBonds { capacity: status })
                } else {
                    Ok(next_step(step))
                }
            },
            StartupStep::ListBonds { capacity } => {
                if status == ESP_OK {
                    let listed = match outcome {
                        StepOutcome::Returned(_) => 0,
                        StepOutcome::Listed { count, .. } => count,
                    };
                    let count = if listed < 0 {
                        0
                    } else if listed > capacity {
                        capacity
                    } else {
                        listed
                    };
                    Ok(StartupStep::RemoveBonds { count })
                } else {
                    Ok(next_step(step))
                }
            },
            _ => {
                let next = next_step(step);
                if step_is_checked(step) {
                    match esp_err_t_to_result(status) {
                        Ok(()) => Ok(next),
                        Err(e) => Err(e),
                    }
                } else {
                    Ok(next)
                }
            },
        }
    }
}

} // verus!

use ble_page_turner::ble_hid::{BleError, BleKeyboard, HID_APP_ID};
use ble_page_turner::startup::{
    controller_config, BtMode, SecurityParam, StartupStep, StepOutcome,
    ESP_ERR_NVS_NEW_VERSION_FOUND, ESP_ERR_NVS_NO_FREE_PAGES, IO_CAP_NONE, KEY_DISTRIBUTION,
    LE_AUTH_BOND, MAX_ENC_KEY_SIZE,
};

use StepOutcome::{Listed, Returned};

fn run(kb: &BleKeyboard, outcomes: &[StepOutcome]) -> (Vec<StartupStep>, Result<StartupStep, BleError>) {
    let mut step = StartupStep::InitNvs;
    let mut seen = vec![step];
    for &o in outcomes {
        match kb.start(step, o) {
            Ok(next) => {
                step = next;
                seen.push(step);
            }
            Err(e) => return (seen, Err(e)),
        }
    }
    (seen, Ok(step))
}

#[test]
fn startup_all_ok_no_bonds() {
    let kb = BleKeyboard::new("kb").unwrap();
    let (seen, last) = run(&kb, &[Returned(0); 15]);
    assert_eq!(last, Ok(StartupStep::Done));
    assert_eq!(
        seen,
        vec![
            StartupStep::InitNvs,
            StartupStep::InitController { config: controller_config() },
            StartupStep::EnableController { mode: BtMode::Ble },
            StartupStep::InitBluedroid,
            StartupStep::EnableBluedroid,
            StartupStep::CountBonds,
            StartupStep::RegisterGattsCallback,
            StartupStep::RegisterGapCallback,
            StartupStep::RegisterApp { app_id: HID_APP_ID },
            StartupStep::SetDeviceName,
            StartupStep::SetSecurityParam { param: SecurityParam::AuthReqMode, value: LE_AUTH_BOND },
            StartupStep::SetSecurityParam { param: SecurityParam::IoCapMode, value: IO_CAP_NONE },
            StartupStep::SetSecurityParam { param: SecurityParam::InitKey, value: KEY_DISTRIBUTION },
            StartupStep::SetSecurityParam { param: SecurityParam::RspKey, value: KEY_DISTRIBUTION },
            StartupStep::SetSecurityParam { param: SecurityParam::MaxKeySize, value: MAX_ENC_KEY_SIZE },
            StartupStep::Done,
        ]
    );
    assert_eq!((LE_AUTH_BOND, IO_CAP_NONE, KEY_DISTRIBUTION, MAX_ENC_KEY_SIZE), (1, 3, 3, 16));
    assert_eq!(HID_APP_ID, 0x1234);
    assert_eq!(kb.start(StartupStep::Done, Returned(-1)), Ok(StartupStep::Done));
}

#[test]
fn controller_is_configured_for_ble_only() {
    let c = controller_config();
    assert_eq!(c.mode, BtMode::Ble);
    assert_eq!(c.ble_max_conn, 3);
    assert_eq!(c.controller_task_stack_size, 4096);
    assert_eq!(c.controller_task_prio, 23);
    assert_eq!((c.hci_uart_no, c.hci_uart_baudrate), (1, 921600));
    assert_eq!((c.normal_adv_size, c.send_adv_reserved_size), (20, 1000));
    assert!(c.hli && !c.auto_latency && !c.ble_scan_backoff);
}

#[test]
fn startup_erases_full_nvs() {
    let kb = BleKeyboard::new("kb").unwrap();
    assert_eq!(kb.start(StartupStep::InitNvs, Returned(ESP_ERR_NVS_NO_FREE_PAGES)), Ok(StartupStep::EraseNvs));
    assert_eq!(kb.start(StartupStep::InitNvs, Returned(ESP_ERR_NVS_NEW_VERSION_FOUND)), Ok(StartupStep::EraseNvs));
    assert_eq!(kb.start(StartupStep::EraseNvs, Returned(0)), Ok(StartupStep::ReinitNvs));
    assert_eq!(
        kb.start(StartupStep::ReinitNvs, Returned(0)),
        Ok(StartupStep::InitController { config: controller_config() })
    );
    assert_eq!(kb.start(StartupStep::EraseNvs, Returned(0x101)), Err(BleError::Esp(0x101)));
    // Any other failure of the first NVS initialisation is not checked.
    assert_eq!(
        kb.start(StartupStep::InitNvs, Returned(-1)),
        Ok(StartupStep::InitController { config: controller_config() })
    );
    assert_eq!((ESP_ERR_NVS_NO_FREE_PAGES, ESP_ERR_NVS_NEW_VERSION_FOUND), (0x110d, 0x1110));
}

#[test]
fn startup_forgets_bonds() {
    let kb = BleKeyboard::new("kb").unwrap();
    let list = StartupStep::ListBonds { capacity: 2 };
    assert_eq!(kb.start(StartupStep::CountBonds, Returned(2)), Ok(list));
    assert_eq!(kb.start(list, Listed { status: 0, count: 2 }), Ok(StartupStep::RemoveBonds { count: 2 }));
    assert_eq!(kb.start(list, Listed { status: 0, count: 1 }), Ok(StartupStep::RemoveBonds { count: 1 }));
    assert_eq!(kb.start(list, Listed { status: 0, count: 5 }), Ok(StartupStep::RemoveBonds { count: 2 }));
    assert_eq!(kb.start(list, Listed { status: 0, count: -3 }), Ok(StartupStep::RemoveBonds { count: 0 }));
    assert_eq!(kb.start(list, Listed { status: -1, count: 2 }), Ok(StartupStep::RegisterGattsCallback));
    assert_eq!(kb.start(StartupStep::RemoveBonds { count: 2 }, Returned(-1)), Ok(StartupStep::RegisterGattsCallback));
    assert_eq!(kb.start(StartupStep::CountBonds, Returned(0)), Ok(StartupStep::RegisterGattsCallback));
    assert_eq!(kb.start(StartupStep::CountBonds, Returned(-1)), Ok(StartupStep::RegisterGattsCallback));
}

#[test]
fn startup_stops_at_failed_call() {
    let kb = BleKeyboard::new("kb").unwrap();
    let (seen, last) = run(&kb, &[Returned(0), Returned(0), Returned(0x103)]);
    assert_eq!(last, Err(BleError::Esp(0x103)));
    assert_eq!(seen.last(), Some(&StartupStep::EnableController { mode: BtMode::Ble }));
    for step in [
        StartupStep::InitController { config: controller_config() },
        StartupStep::EnableController { mode: BtMode::Ble },
        StartupStep::InitBluedroid,
        StartupStep::EnableBluedroid,
        StartupStep::RegisterGattsCallback,
        StartupStep::RegisterGapCallback,
        StartupStep::RegisterApp { app_id: HID_APP_ID },
        StartupStep::SetDeviceName,
    ] {
        assert_eq!(kb.start(step, Returned(7)), Err(BleError::Esp(7)));
    }
    // Security parameters are set without checking.
    let sec = StartupStep::SetSecurityParam { param: SecurityParam::AuthReqMode, value: LE_AUTH_BOND };
    assert!(kb.start(sec, Returned(7)).is_ok());
}

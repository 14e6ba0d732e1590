//! Verified core of a BLE HID page turner: a capacitive touch pad is sampled,
//! and every new touch sends a "Page Down" key press to the connected host.

pub mod ble_hid;
pub mod hid;
pub mod led;
pub mod page_turner;
pub mod startup;
pub mod touch;

pub use ble_hid::BleKeyboard;
pub use touch::{is_touched, TOUCH_THRESHOLD};

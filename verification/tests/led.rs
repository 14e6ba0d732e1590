use ble_page_turner::led::{blink_steps, LedStep, BLINK_PAUSE_MS, CONNECT_BLINKS};

#[test]
fn blink_alternates_on_and_off() {
    let steps = blink_steps(CONNECT_BLINKS);
    assert_eq!(CONNECT_BLINKS, 5);
    assert_eq!(steps.len(), 10);
    for (i, s) in steps.iter().enumerate() {
        assert_eq!(*s, LedStep { level: if i % 2 == 0 { 1 } else { 0 }, pause_ms: BLINK_PAUSE_MS });
    }
    assert_eq!(BLINK_PAUSE_MS, 200);
    assert!(blink_steps(0).is_empty());
}

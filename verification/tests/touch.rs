use ble_page_turner::touch::{is_touched, TOUCH_THRESHOLD};

#[test]
fn touched_when_value_below_threshold() {
    assert!(is_touched(TOUCH_THRESHOLD - 1));
}

#[test]
fn not_touched_at_threshold() {
    assert!(!is_touched(TOUCH_THRESHOLD));
}

#[test]
fn not_touched_above_threshold() {
    assert!(!is_touched(TOUCH_THRESHOLD + 1));
}

#[test]
fn not_touched_at_max_value() {
    assert!(!is_touched(u16::MAX));
}

#[test]
fn touched_at_zero() {
    assert!(is_touched(0));
}

#[test]
fn debounce_logic_fires_only_on_rising_edge() {
    // Key should only be sent once when transitioning from not-touched to touched.
    let readings: &[u16] = &[500, 500, 100, 100, 100, 500, 100];
    // expected: fire on index 2 and index 6 (rising edges)
    let expected_fires: &[bool] = &[false, false, true, false, false, false, true];

    let mut was_touched = false;
    for (i, &val) in readings.iter().enumerate() {
        let touched = is_touched(val);
        let fires = touched && !was_touched;
        assert_eq!(fires, expected_fires[i], "mismatch at reading index {i}");
        was_touched = touched;
    }
}

#[test]
fn threshold_splits_readings() {
    assert!(is_touched(499));
    assert!(!is_touched(500));
    assert!(!is_touched(1000));
    assert!(is_touched(100));
}

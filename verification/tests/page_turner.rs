use ble_page_turner::page_turner::{
    poll, PageTurner, Poll, SampleOutcome, AFTER_PRESS_PAUSE_MS, DISCONNECTED_POLL_MS,
    KEY_PAGE_DOWN, SAMPLE_PERIOD_MS,
};

#[test]
fn turner_presses_page_down_on_rising_edges_only() {
    let readings: &[u16] = &[500, 500, 100, 100, 100, 500, 100];
    let expected: &[bool] = &[false, false, true, false, false, false, true];
    let mut turner = PageTurner::new();
    for (i, &val) in readings.iter().enumerate() {
        let outcome = turner.on_sample(val);
        assert_eq!(outcome.key.is_some(), expected[i], "reading {i}");
        assert_eq!(turner.was_touched(), val < 500);
    }
}

#[test]
fn turner_press_outcome_is_page_down_with_pause() {
    let mut turner = PageTurner::new();
    assert!(!turner.was_touched());
    assert_eq!(
        turner.on_sample(100),
        SampleOutcome { key: Some(KEY_PAGE_DOWN), pause_ms: AFTER_PRESS_PAUSE_MS, next_sample_ms: SAMPLE_PERIOD_MS }
    );
    assert_eq!(
        turner.on_sample(100),
        SampleOutcome { key: None, pause_ms: 0, next_sample_ms: SAMPLE_PERIOD_MS }
    );
    assert_eq!(KEY_PAGE_DOWN, 0x4E);
    assert_eq!(AFTER_PRESS_PAUSE_MS, 2000);
    assert_eq!(SAMPLE_PERIOD_MS, 200);
}

#[test]
fn turner_long_touch_sends_one_key() {
    let mut turner = PageTurner::new();
    let mut presses = 0;
    for _ in 0..20 {
        if turner.on_sample(10).key.is_some() {
            presses += 1;
        }
    }
    assert_eq!(presses, 1);
}

#[test]
fn poll_waits_while_disconnected() {
    assert_eq!(poll(false), Poll::WaitForConnection { delay_ms: DISCONNECTED_POLL_MS });
    assert_eq!(DISCONNECTED_POLL_MS, 100);
    assert_eq!(poll(true), Poll::ReadTouchPad);
}

use prism_client::double_tap::{DoubleTapDetector, DOUBLE_TAP_WINDOW_MS};

fn detector() -> DoubleTapDetector {
    DoubleTapDetector::new(DOUBLE_TAP_WINDOW_MS)
}

#[test]
fn no_tap_no_trigger() {
    let d = detector();
    assert!(!d.is_triggered());
}

#[test]
fn single_tap_no_trigger() {
    let mut d = detector();
    let t0 = 1_000;
    d.key_down(t0);
    d.key_up(t0);
    assert!(!d.is_triggered());
}

#[test]
fn double_tap_within_window_triggers() {
    let mut d = detector();
    let t0 = 1_000;
    let result1 = d.key_down(t0);
    let result2 = d.key_down(t0 + 100);
    assert!(!result1);
    assert!(result2);
    assert!(d.is_triggered());
}

#[test]
fn double_tap_outside_window_no_trigger() {
    let mut d = detector();
    let t0 = 1_000;
    let result1 = d.key_down(t0);
    let result2 = d.key_down(t0 + 400);
    assert!(!result1);
    assert!(!result2);
    assert!(!d.is_triggered());
}

#[test]
fn other_key_resets() {
    let mut d = detector();
    let t0 = 1_000;
    d.key_down(t0);
    d.other_key_pressed();
    let result = d.key_down(t0 + 100);
    assert!(!result);
    assert!(!d.is_triggered());
}

#[test]
fn consume_resets_state() {
    let mut d = detector();
    let t0 = 1_000;
    d.key_down(t0);
    d.key_down(t0 + 100);
    assert!(d.is_triggered());
    d.consume();
    assert!(!d.is_triggered());
    let t1 = 5_000;
    d.key_down(t1);
    let result = d.key_down(t1 + 100);
    assert!(result);
    assert!(d.is_triggered());
}

#[test]
fn press_exactly_at_window_edge_triggers() {
    let mut d = detector();
    assert!(!d.key_down(2_000));
    assert!(d.key_down(2_300));
}

#[test]
fn press_just_past_window_restarts_from_that_press() {
    let mut d = detector();
    assert!(!d.key_down(2_000));
    assert!(!d.key_down(2_301));
    // The late press counts as a new first tap.
    assert!(d.key_down(2_500));
}

#[test]
fn clock_running_backwards_counts_as_no_time() {
    let mut d = detector();
    assert!(!d.key_down(10_000));
    assert!(d.key_down(9_000));
}

#[test]
fn triggered_detector_ignores_further_presses() {
    let mut d = detector();
    d.key_down(0);
    assert!(d.key_down(10));
    assert!(!d.key_down(20));
    assert!(d.is_triggered());
}

#[test]
fn trigger_lasts_through_releases_until_reset() {
    let mut d = detector();
    d.key_down(0);
    d.key_up(10);
    assert!(d.key_down(50));
    d.key_up(60);
    d.key_down(70);
    assert!(d.is_triggered());
    d.other_key_pressed();
    assert!(!d.is_triggered());
    d.key_down(100);
    assert!(d.key_down(150));
    d.consume();
    assert!(!d.is_triggered());
}

use blue_gate::gpi::{is_obstacle_active, obstacle_repeat_due, Debouncer, DEBOUNCE_TIME_MS,
    OBSTACLE_REPEAT_MS};

#[test]
fn short_glitch_is_filtered() {
    let mut d = Debouncer::new(false, 0);
    assert_eq!(d.update(true, 50), None);
    // Back to the old level before the debounce time passed: no edge.
    assert_eq!(d.update(false, 100), None);
    assert_eq!(d.update(false, 200), None);
    assert!(!d.stable_state);
}

#[test]
fn held_level_becomes_an_edge() {
    let mut d = Debouncer::new(false, 0);
    assert_eq!(d.update(true, 50), None);
    // Still high after the debounce time: rising edge.
    assert_eq!(d.update(true, 50 + DEBOUNCE_TIME_MS), Some(true));
    assert!(d.stable_state);
    // Holding it longer reports nothing new.
    assert_eq!(d.update(true, 1000), None);
}

#[test]
fn falling_edge_is_reported_too() {
    let mut d = Debouncer::new(true, 0);
    assert_eq!(d.update(false, 10), None);
    assert_eq!(d.update(false, 10 + DEBOUNCE_TIME_MS), Some(false));
    assert!(!d.stable_state);
}

#[test]
fn repeated_bounce_restarts_the_timer() {
    let mut d = Debouncer::new(false, 0);
    assert_eq!(d.update(true, 0), None);
    assert_eq!(d.update(true, 60), None);
    // A dip restarts the debounce window.
    assert_eq!(d.update(false, 90), None);
    assert_eq!(d.update(true, 120), None);
    assert_eq!(d.update(true, 160), None);
    assert_eq!(d.update(true, 120 + DEBOUNCE_TIME_MS), Some(true));
}

#[test]
fn obstacle_reporting_repeats_after_interval() {
    assert!(obstacle_repeat_due(None, 0));
    assert!(!obstacle_repeat_due(Some(1000), 1000 + OBSTACLE_REPEAT_MS - 1));
    assert!(obstacle_repeat_due(Some(1000), 1000 + OBSTACLE_REPEAT_MS));
}

#[test]
fn obstacle_snapshot_reports_inactive() {
    assert!(!is_obstacle_active());
}

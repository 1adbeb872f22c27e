use cw_adapter::debounce::Debouncer;

#[test]
fn debouncer_starts_at_initial_state() {
    let d = Debouncer::new(true, 3);
    assert!(d.state());
    let d = Debouncer::new(false, 3);
    assert!(!d.state());
}

#[test]
fn debouncer_flips_after_threshold_samples() {
    let mut d = Debouncer::new(false, 5);
    for _ in 0..4 {
        assert!(!d.update(true));
    }
    assert!(d.update(true));
    assert!(d.state());
}

#[test]
fn debouncer_rejects_short_glitch() {
    let mut d = Debouncer::new(false, 5);
    for _ in 0..4 {
        assert!(!d.update(true));
    }
    // One agreeing sample clears the count.
    assert!(!d.update(false));
    for _ in 0..4 {
        assert!(!d.update(true));
    }
    assert!(d.update(true));
}

#[test]
fn debouncer_threshold_one_follows_input() {
    let mut d = Debouncer::new(false, 1);
    assert!(d.update(true));
    assert!(!d.update(false));
    assert!(!d.update(false));
}

#[test]
fn debouncer_release_also_debounced() {
    let mut d = Debouncer::new(true, 2);
    assert!(d.update(false));
    assert!(!d.update(false));
}

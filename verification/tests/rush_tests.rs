use hivemind::rush::RushCounter;

#[test]
fn burst_over_threshold_signals_once_and_resets() {
    let mut c = RushCounter::new(0, 5_000, 20);
    for _ in 0..21 {
        c.record();
    }
    assert_eq!(c.count, 21);
    // checked within the interval (4 seconds in)
    assert!(c.tick(4_000));
    assert_eq!(c.count, 0);
    assert_eq!(c.window_start, 4_000);
    // the same burst cannot trigger twice
    assert!(!c.tick(4_000));
}

#[test]
fn below_threshold_the_interval_resets_without_signal() {
    let mut c = RushCounter::new(0, 5_000, 20);
    for _ in 0..19 {
        c.record();
    }
    assert!(!c.tick(4_999));
    assert_eq!(c.count, 19);
    // the 5-second boundary elapses first
    assert!(!c.tick(5_000));
    assert_eq!(c.count, 0);
    assert_eq!(c.window_start, 5_000);
}

#[test]
fn exactly_threshold_is_not_enough() {
    let mut c = RushCounter::new(0, 5_000, 20);
    for _ in 0..20 {
        c.record();
    }
    assert!(!c.tick(1_000));
    // the count survives a tick inside the interval
    assert_eq!(c.count, 20);
    c.record();
    assert!(c.tick(2_000));
}

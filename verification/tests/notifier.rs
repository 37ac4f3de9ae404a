use blucher_bridge::notifier::{notifier_message, Notifier, NOTIFIER_INTERVAL_SECS};

#[test]
fn notifier_message_text() {
    assert_eq!(notifier_message(0), "Time: 0");
    assert_eq!(notifier_message(7), "Time: 7");
    assert_eq!(notifier_message(61), "Time: 61");
}

#[test]
fn tick_counts_and_formats() {
    let mut n = Notifier::new(NOTIFIER_INTERVAL_SECS);
    assert_eq!(n.emitted, 0);
    assert_eq!(n.tick(1), "Time: 1");
    assert_eq!(n.tick(2), "Time: 2");
    assert_eq!(n.emitted, 2);
    assert_eq!(n.last_elapsed_secs, 2);
}

#[test]
fn on_time_count_matches_whole_intervals() {
    // After five seconds at a one-second interval, five notifications.
    let mut n = Notifier::new(1);
    let t: u64 = 5;
    for elapsed in 1..=t {
        n.tick(elapsed);
    }
    assert_eq!(n.emitted, t / NOTIFIER_INTERVAL_SECS);
}

#[test]
fn emissions_carry_non_decreasing_values() {
    let mut n = Notifier::new(1);
    let readings: [u64; 5] = [1, 2, 2, 3, 10];
    let mut last: Option<u64> = None;
    for r in readings {
        let msg = n.tick(r);
        assert_eq!(msg, format!("Time: {}", r));
        if let Some(prev) = last {
            assert!(r >= prev);
        }
        last = Some(r);
    }
    assert_eq!(n.emitted, 5);
}

use switch_life_manager::detector::{ButtonEvent, ChatterDetector};
use switch_life_manager::keys::LogicalKey;
use switch_life_manager::stats::ButtonStats;

#[test]
fn test_normal_press_release() {
    let mut detector = ChatterDetector::new(15);
    let mut stats = ButtonStats::default();
    let key = LogicalKey::Key1;

    detector.process_button(&key, true, 100, &mut stats, true);
    assert_eq!(stats.total_presses, 1);
    assert_eq!(stats.total_releases, 0);
    assert_eq!(stats.total_chatters, 0);

    detector.process_button(&key, false, 150, &mut stats, true);
    assert_eq!(stats.total_presses, 1);
    assert_eq!(stats.total_releases, 1);
    assert_eq!(stats.total_chatters, 0);
}

#[test]
fn test_chattering_press() {
    let mut detector = ChatterDetector::new(15);
    let mut stats = ButtonStats::default();
    let key = LogicalKey::Key1;

    detector.process_button(&key, true, 100, &mut stats, true);
    detector.process_button(&key, false, 150, &mut stats, true);
    detector.process_button(&key, true, 155, &mut stats, true);

    assert_eq!(stats.total_presses, 1);
    assert_eq!(stats.total_releases, 1);
    assert_eq!(stats.total_chatters, 1);
    assert_eq!(stats.total_chatter_releases, 1);

    detector.process_button(&key, false, 160, &mut stats, true);
    assert_eq!(stats.total_releases, 2);
}

#[test]
fn test_multi_bounce_suppression() {
    let mut detector = ChatterDetector::new(15);
    let mut stats = ButtonStats::default();
    let key = LogicalKey::Key1;

    detector.process_button(&key, true, 100, &mut stats, true);
    detector.process_button(&key, false, 150, &mut stats, true);

    detector.process_button(&key, true, 155, &mut stats, true);
    assert_eq!(stats.total_chatters, 1);

    detector.process_button(&key, false, 156, &mut stats, true);

    detector.process_button(&key, true, 158, &mut stats, true);
    assert_eq!(stats.total_chatters, 1, "Should ignore press during cooldown");

    detector.process_button(&key, false, 160, &mut stats, true);

    detector.process_button(&key, true, 180, &mut stats, true);
    assert_eq!(stats.total_presses, 2);
    assert_eq!(stats.total_chatters, 1);
}

#[test]
fn test_multiple_chatters_single_release_group() {
    let mut detector = ChatterDetector::new(10);
    let mut stats = ButtonStats::default();
    let key = LogicalKey::Key1;

    detector.process_button(&key, true, 100, &mut stats, true);
    detector.process_button(&key, false, 150, &mut stats, true);

    detector.process_button(&key, true, 152, &mut stats, true);
    assert_eq!(stats.total_chatter_releases, 1);
    assert_eq!(stats.total_chatters, 1);

    detector.process_button(&key, false, 153, &mut stats, true);

    detector.process_button(&key, true, 155, &mut stats, true);
    assert_eq!(stats.total_chatters, 1);

    detector.process_button(&key, false, 156, &mut stats, true);
}

#[test]
fn test_input_outside_session_updates_total_only() {
    let mut detector = ChatterDetector::new(15);
    let mut stats = ButtonStats::default();
    let key = LogicalKey::Key1;

    detector.process_button(&key, true, 100, &mut stats, false);

    assert_eq!(stats.total_presses, 1);
    assert_eq!(stats.last_session_presses, 0);

    detector.process_button(&key, false, 150, &mut stats, false);
    assert_eq!(stats.total_releases, 1);
}

#[test]
fn test_input_inside_session_updates_both() {
    let mut detector = ChatterDetector::new(15);
    let mut stats = ButtonStats::default();
    let key = LogicalKey::Key1;

    detector.process_button(&key, true, 100, &mut stats, true);

    assert_eq!(stats.total_presses, 1);
    assert_eq!(stats.last_session_presses, 1);
}

#[test]
fn test_chatter_inside_and_outside_session() {
    let mut detector = ChatterDetector::new(15);
    let mut stats = ButtonStats::default();
    let key = LogicalKey::Key1;

    detector.process_button(&key, true, 100, &mut stats, false);
    detector.process_button(&key, false, 150, &mut stats, false);
    detector.process_button(&key, true, 155, &mut stats, false);

    assert_eq!(stats.total_chatters, 1);
    assert_eq!(stats.last_session_chatters, 0);

    detector.process_button(&key, false, 200, &mut stats, false);

    detector.process_button(&key, true, 300, &mut stats, true);
    detector.process_button(&key, false, 350, &mut stats, true);
    detector.process_button(&key, true, 355, &mut stats, true);

    assert_eq!(stats.total_chatters, 2);
    assert_eq!(stats.last_session_chatters, 1);
}

#[test]
fn scenario_with_cooldown_counts_two_presses_one_chatter_three_releases() {
    let mut detector = ChatterDetector::new(15);
    let mut stats = ButtonStats::default();
    let key = LogicalKey::Key1;
    let steps: [(bool, u64); 7] =
        [(true, 100), (false, 150), (true, 155), (false, 156), (true, 158), (false, 160), (true, 180)];
    for (pressed, at) in steps {
        detector.process_button(&key, pressed, at, &mut stats, true);
    }
    assert_eq!(stats.total_presses, 2);
    assert_eq!(stats.total_chatters, 1);
    assert_eq!(stats.total_chatter_releases, 1);
    assert_eq!(stats.total_releases, 3);
    assert_eq!(stats.last_session_presses, 2);
    assert_eq!(stats.last_session_chatters, 1);
    assert_eq!(stats.last_session_chatter_releases, 1);
}

#[test]
fn presses_spaced_by_the_threshold_each_count_once() {
    let mut detector = ChatterDetector::new(15);
    let mut stats = ButtonStats::default();
    let key = LogicalKey::Key3;
    let mut at: u64 = 1000;
    for round in 0..10u64 {
        let active = round % 2 == 0;
        detector.process_button(&key, true, at, &mut stats, active);
        at += 15;
        detector.process_button(&key, false, at, &mut stats, active);
        at += 15;
    }
    assert_eq!(stats.total_presses, 10);
    assert_eq!(stats.last_session_presses, 5);
    assert_eq!(stats.total_releases, 10);
    assert_eq!(stats.total_chatters, 0);
    assert_eq!(stats.total_chatter_releases, 0);
}

#[test]
fn repress_within_threshold_is_one_chatter_and_no_press() {
    let mut detector = ChatterDetector::new(15);
    let mut stats = ButtonStats::default();
    let key = LogicalKey::E1;
    detector.process_button(&key, true, 10, &mut stats, false);
    detector.process_button(&key, false, 50, &mut stats, false);
    assert_eq!(detector.classify(&key, true, 64), ButtonEvent::Chatter);
    assert_eq!(detector.classify(&key, true, 65), ButtonEvent::Press);
    detector.process_button(&key, true, 64, &mut stats, false);
    assert_eq!(stats.total_presses, 1);
    assert_eq!(stats.total_chatters, 1);
    assert_eq!(stats.total_chatter_releases, 1);
    assert_eq!(stats.last_session_chatters, 0);
}

#[test]
fn press_inside_cooldown_changes_no_counter_but_is_remembered() {
    let mut detector = ChatterDetector::new(15);
    let mut stats = ButtonStats::default();
    let key = LogicalKey::Key1;
    detector.process_button(&key, true, 100, &mut stats, true);
    detector.process_button(&key, false, 150, &mut stats, true);
    detector.process_button(&key, true, 155, &mut stats, true);
    detector.process_button(&key, false, 156, &mut stats, true);
    let before = stats;
    assert_eq!(detector.key_state(&key).chatter_cooldown_until, 170);
    assert_eq!(detector.classify(&key, true, 169), ButtonEvent::SuppressedBounce);
    detector.process_button(&key, true, 169, &mut stats, true);
    assert_eq!(stats.total_presses, before.total_presses);
    assert_eq!(stats.total_chatters, before.total_chatters);
    assert_eq!(stats.total_chatter_releases, before.total_chatter_releases);
    assert_eq!(stats.last_session_presses, before.last_session_presses);
    assert!(detector.key_state(&key).is_pressed);
    detector.process_button(&key, false, 200, &mut stats, true);
    assert_eq!(stats.total_releases, before.total_releases + 1);
    assert!(!detector.key_state(&key).is_pressed);
    assert_eq!(detector.key_state(&key).last_release_at, Some(200));
}

#[test]
fn observations_without_an_edge_change_nothing() {
    let mut detector = ChatterDetector::new(15);
    let mut stats = ButtonStats::default();
    let key = LogicalKey::Key2;
    detector.process_button(&key, false, 5, &mut stats, true);
    assert_eq!(detector.classify(&key, false, 6), ButtonEvent::Idle);
    detector.process_button(&key, true, 10, &mut stats, true);
    detector.process_button(&key, true, 11, &mut stats, true);
    detector.process_button(&key, true, 12, &mut stats, true);
    assert_eq!(stats.total_presses, 1);
    assert_eq!(stats.total_releases, 0);
    assert_eq!(detector.last_observed_ms(), 12);
}

#[test]
fn keys_are_tracked_apart() {
    let mut detector = ChatterDetector::new(15);
    let mut one = ButtonStats::default();
    let mut two = ButtonStats::default();
    detector.process_button(&LogicalKey::Key1, true, 100, &mut one, true);
    detector.process_button(&LogicalKey::Key2, true, 100, &mut two, true);
    detector.process_button(&LogicalKey::Key1, false, 110, &mut one, true);
    detector.process_button(&LogicalKey::Key2, true, 110, &mut two, true);
    detector.process_button(&LogicalKey::Key1, true, 112, &mut one, true);
    assert_eq!(one.total_chatters, 1);
    assert_eq!(two.total_chatters, 0);
    assert_eq!(two.total_presses, 1);
    assert!(detector.key_state(&LogicalKey::Key2).is_pressed);
    assert_eq!(detector.key_state(&LogicalKey::Other(7)).last_release_at, None);
}

#[test]
fn session_counters_never_exceed_lifetime_counters() {
    let mut detector = ChatterDetector::new(20);
    let mut stats = ButtonStats::default();
    let key = LogicalKey::Turntable;
    let mut at: u64 = 0;
    for step in 0..200u64 {
        at += 1 + (step * 7) % 23;
        detector.process_button(&key, step % 2 == 0, at, &mut stats, step % 3 != 0);
        assert!(stats.last_session_presses <= stats.total_presses);
        assert!(stats.last_session_chatters <= stats.total_chatters);
        assert!(stats.last_session_chatter_releases <= stats.total_chatter_releases);
    }
    assert!(stats.total_chatters > 0);
    stats.reset_session_stats();
    assert_eq!(stats.last_session_presses, 0);
    assert_eq!(stats.last_session_chatters, 0);
    assert_eq!(stats.last_session_chatter_releases, 0);
    assert!(stats.total_presses > 0);
}

#[test]
fn detector_admits_only_times_that_do_not_run_backwards() {
    let mut detector = ChatterDetector::new(15);
    let mut stats = ButtonStats::default();
    assert!(detector.admits(0));
    detector.process_button(&LogicalKey::Key1, true, 500, &mut stats, false);
    assert!(detector.admits(500));
    assert!(!detector.admits(499));
    assert!(!detector.admits(u64::MAX - 14));
    assert!(detector.admits(u64::MAX - 15));
    assert_eq!(detector.threshold_ms(), 15);
    assert!(stats.check_headroom());
    stats.total_releases = u64::MAX;
    assert!(!stats.check_headroom());
}

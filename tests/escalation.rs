use server_manager::escalation::{Decision, EscalationCounter};

#[test]
fn six_incidents_within_five_minutes_stop() {
    let mut c = EscalationCounter::new(15 * 60, 5, 0);
    let times = [0u64, 60, 120, 180, 240, 300];
    let mut decisions = Vec::new();
    for t in times {
        decisions.push(c.record_incident(t));
    }
    assert_eq!(&decisions[..5], &[Decision::Continue; 5]);
    assert_eq!(decisions[5], Decision::Stop);
}

#[test]
fn count_equals_incidents_within_window() {
    let mut c = EscalationCounter::new(600, 100, 1000);
    for (n, t) in [1000u64, 1500, 2100, 2700, 3300].iter().enumerate() {
        c.record_incident(*t);
        assert_eq!(c.count, n as u64 + 1);
        assert_eq!(c.last_incident, *t);
    }
}

#[test]
fn incident_after_quiet_window_resets_to_one() {
    let mut c = EscalationCounter::new(600, 5, 0);
    c.record_incident(10);
    c.record_incident(20);
    assert_eq!(c.count, 2);
    assert_eq!(c.record_incident(621), Decision::Continue);
    assert_eq!(c.count, 1);
}

#[test]
fn gap_equal_to_window_does_not_reset() {
    let mut c = EscalationCounter::new(600, 5, 0);
    c.record_incident(100);
    c.record_incident(700);
    assert_eq!(c.count, 2);
}

#[test]
fn stop_only_once_count_exceeds_threshold() {
    let mut c = EscalationCounter::new(600, 2, 0);
    assert_eq!(c.record_incident(1), Decision::Continue);
    assert_eq!(c.record_incident(2), Decision::Continue);
    assert_eq!(c.record_incident(3), Decision::Stop);
    assert_eq!(c.count, 3);
}

#[test]
fn zero_threshold_stops_at_first_incident() {
    let mut c = EscalationCounter::new(600, 0, 0);
    assert_eq!(c.record_incident(0), Decision::Stop);
}

#[test]
fn count_saturates_at_largest_value() {
    let mut c = EscalationCounter { quiet_window: 10, threshold: 5, last_incident: 0, count: u64::MAX };
    assert_eq!(c.record_incident(1), Decision::Stop);
    assert_eq!(c.count, u64::MAX);
}

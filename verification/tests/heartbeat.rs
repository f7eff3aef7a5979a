use cp_chat::config::ChatConfig;
use cp_chat::heartbeat::{HeartbeatMonitor, Verdict};

#[test]
fn monitor_keeps_what_it_was_made_with() {
    let monitor = HeartbeatMonitor::new(5_000, 10_000, 42);
    assert_eq!(monitor.interval(), 5_000);
    assert_eq!(monitor.timeout(), 10_000);
    assert_eq!(monitor.last_heard(), 42);
}

#[test]
fn check_expires_only_after_more_than_the_timeout() {
    let monitor = HeartbeatMonitor::new(5_000, 10_000, 1_000);
    assert_eq!(monitor.check(1_000), Verdict::Alive);
    assert_eq!(monitor.check(10_999), Verdict::Alive);
    assert_eq!(monitor.check(11_000), Verdict::Alive);
    assert_eq!(monitor.check(11_001), Verdict::Expired);
    assert_eq!(monitor.check(u64::MAX), Verdict::Expired);
}

#[test]
fn check_before_the_last_signal_is_alive() {
    let monitor = HeartbeatMonitor::new(5_000, 0, 1_000);
    assert_eq!(monitor.check(999), Verdict::Alive);
    assert_eq!(monitor.check(1_000), Verdict::Alive);
    assert_eq!(monitor.check(1_001), Verdict::Expired);
}

#[test]
fn record_moves_the_deadline() {
    let mut monitor = HeartbeatMonitor::new(5_000, 10_000, 0);
    assert_eq!(monitor.check(10_001), Verdict::Expired);
    monitor.record(9_000);
    assert_eq!(monitor.last_heard(), 9_000);
    assert_eq!(monitor.check(10_001), Verdict::Alive);
    assert_eq!(monitor.check(19_000), Verdict::Alive);
    assert_eq!(monitor.check(19_001), Verdict::Expired);
}

#[test]
fn next_check_adds_the_interval_and_saturates() {
    let monitor = HeartbeatMonitor::new(5_000, 10_000, 0);
    assert_eq!(monitor.next_check(0), 5_000);
    assert_eq!(monitor.next_check(7), 5_007);
    assert_eq!(monitor.next_check(u64::MAX - 4_999), u64::MAX);
    assert_eq!(monitor.next_check(u64::MAX - 5_000), u64::MAX);
    assert_eq!(monitor.next_check(u64::MAX - 5_001), u64::MAX - 1);
}

#[test]
fn recommended_configuration() {
    let config = ChatConfig::recommended();
    assert_eq!(config.default_room, "main");
    assert_eq!(config.heartbeat_interval_ms, 5_000);
    assert_eq!(config.heartbeat_timeout_ms, 10_000);
    assert_eq!(config.max_frame_bytes, 65_536);
}

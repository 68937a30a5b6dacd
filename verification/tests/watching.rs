use aa_proxy::config::Action;
use aa_proxy::monitor::{
    report_line, session_ending, session_time_text, stats_interval_text, transfer_line, Tick, TransferMonitor,
    TransferReport,
};

const SECOND: u128 = 1_000_000_000;

#[test]
fn report_tells_what_came_since_the_last_one() {
    let mut m = TransferMonitor::new(Some(SECOND), 100 * SECOND, 0);
    assert_eq!(m.transfer_monitor(10, 20, SECOND).report, None);
    let first = m.transfer_monitor(100, 200, 2 * SECOND).report;
    assert_eq!(
        first,
        Some(TransferReport {
            usb_transferred_last: 100,
            usb_transferred_total: 100,
            tcp_transferred_last: 200,
            tcp_transferred_total: 200,
            elapsed: 2 * SECOND,
        })
    );
    let second = m.transfer_monitor(150, 201, 4 * SECOND).report.unwrap();
    assert_eq!((second.usb_transferred_last, second.usb_transferred_total), (50, 150));
    assert_eq!((second.tcp_transferred_last, second.tcp_transferred_total), (1, 201));
    assert_eq!(second.elapsed, 2 * SECOND);
}

#[test]
fn no_interval_means_no_report() {
    let mut m = TransferMonitor::new(None, 100 * SECOND, 0);
    assert_eq!(m.transfer_monitor(1, 1, 50 * SECOND).report, None);
}

#[test]
fn silence_in_one_direction_is_a_stall() {
    let mut m = TransferMonitor::new(None, 10 * SECOND, 0);
    assert!(!m.transfer_monitor(5, 5, 10 * SECOND).stalled);
    assert!(!m.transfer_monitor(5, 5, 10 * SECOND + 1).stalled);
    assert!(!m.transfer_monitor(5, 5, 20 * SECOND).stalled);
    assert!(m.transfer_monitor(9, 5, 20 * SECOND + 2).stalled);
}

#[test]
fn traffic_in_both_directions_is_no_stall() {
    let mut m = TransferMonitor::new(None, SECOND, 0);
    assert!(!m.transfer_monitor(1, 1, 2 * SECOND).stalled);
    assert!(!m.transfer_monitor(2, 2, 4 * SECOND).stalled);
    assert!(m.transfer_monitor(2, 3, 6 * SECOND).stalled);
}

#[test]
fn action_ends_the_session() {
    let quiet = Tick { report: None, stalled: false };
    assert!(session_ending(&quiet, None).is_none());
    let e = session_ending(&quiet, Some(Action::Reconnect)).unwrap();
    assert_eq!((e.message.as_str(), e.clear), ("action request: Reconnect", true));
    let e = session_ending(&quiet, Some(Action::Reboot)).unwrap();
    assert_eq!((e.message.as_str(), e.clear), ("action request: Reboot", false));
    let e = session_ending(&quiet, Some(Action::Stop)).unwrap();
    assert_eq!((e.message.as_str(), e.clear), ("action request: Stop", false));
}

#[test]
fn stall_comes_before_an_action() {
    let stalled = Tick { report: None, stalled: true };
    for action in [None, Some(Action::Reconnect)] {
        let e = session_ending(&stalled, action).unwrap();
        assert_eq!((e.message.as_str(), e.clear), ("unexpected transfer stall", false));
    }
}

#[test]
fn large_sizes_are_told_in_tenths_of_a_unit() {
    let line = |last: usize, total: usize| {
        report_line(
            &TransferReport {
                usb_transferred_last: last,
                usb_transferred_total: total,
                tcp_transferred_last: 0,
                tcp_transferred_total: 0,
                elapsed: SECOND,
            },
            0,
            0,
        )
    };
    assert!(line(1536, 1024).contains("  1.5 kiB (      0 B/s),   1.0 kiB total"));
    assert!(line(3 << 20, 1 << 30).contains("  3.0 MiB (      0 B/s),   1.0 GiB total"));
    assert!(line(5 << 40, 7 << 50).contains("  5.0 TiB (      0 B/s),   7.0 PiB total"));
    assert!(line(999_000, 1_001_000).contains("975.6 kiB (      0 B/s),   1.0 MiB total"));
    assert!(line(1_001_000_000_000_000_000, 2000).contains("  0.9 EiB (      0 B/s),   2.0 kiB total"));
    assert!(line(usize::MAX, 1023).contains(" 16.0 EiB (      0 B/s),    1023 B total"));
}

#[test]
fn durations_are_told_in_words() {
    assert_eq!(stats_interval_text(Some(90)), "1m 30s");
    assert_eq!(stats_interval_text(None), "disabled");
    assert_eq!(session_time_text(3661, 5_000_000), "1h 1m 1s 5ms");
}

#[test]
fn statistics_are_told_in_columns() {
    assert_eq!(transfer_line("12 B", "1 B", "1.0 kiB"), "     12 B (      1 B/s),   1.0 kiB total");
}

#[test]
fn sizes_are_told_in_words() {
    let report = TransferReport {
        usb_transferred_last: 12,
        usb_transferred_total: 2048,
        tcp_transferred_last: 0,
        tcp_transferred_total: 1023,
        elapsed: SECOND,
    };
    assert_eq!(
        report_line(&report, 3, 5 * 1024 * 1024),
        "phone -> car 🔺      12 B (      3 B/s),   2.0 kiB total | \
         car -> phone 🔻       0 B (  5.0 MiB/s),    1023 B total"
    );
}

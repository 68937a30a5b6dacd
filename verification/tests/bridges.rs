use aa_proxy::bridge::{
    companion_bridges, host_port_text, tcp_bridge, BridgeEvent, BridgePhase, BridgeStep, MediaBridge, MediaStep,
    MediaTapEndpoint,
};
use aa_proxy::peer::{disassociate_args, hardware_text, ipv4_text, is_loopback, mac_from_ipv4, PeerIp};

fn table(rows: &[&str]) -> Vec<String> {
    rows.iter().map(|r| r.to_string()).collect()
}

const HEADING: &str = "IP address       HW type     Flags       HW address            Mask     Device";

#[test]
fn phone_elsewhere_gets_three_bridges() {
    let plan = companion_bridges(true, "10.0.0.7", false);
    assert!(plan.keep_ip);
    let routes: Vec<(&str, &str)> =
        plan.routes.iter().map(|r| (r.remote.as_str(), r.local.as_str())).collect();
    assert_eq!(
        routes,
        vec![
            ("10.0.0.7:9999", "127.0.0.1:80"),
            ("10.0.0.7:9998", "127.0.0.1:80"),
            ("10.0.0.7:9997", "127.0.0.1:8080"),
        ]
    );
}

#[test]
fn phone_on_this_machine_gets_two_bridges() {
    let plan = companion_bridges(true, "127.0.0.1", true);
    assert!(!plan.keep_ip);
    assert_eq!(plan.routes.len(), 2);
    assert_eq!(plan.routes[0].remote, "127.0.0.1:9998");
    assert_eq!(plan.routes[1].local, "127.0.0.1:8080");
}

#[test]
fn head_unit_gets_no_bridges() {
    let plan = companion_bridges(false, "10.0.0.7", false);
    assert!(!plan.keep_ip);
    assert!(plan.routes.is_empty());
}

#[test]
fn bridge_tries_again_after_a_rest() {
    let mut phase = BridgePhase::New;
    let mut next = |e| tcp_bridge(&mut phase, e);
    assert_eq!(next(BridgeEvent::Begin), BridgeStep::ConnectRemote);
    assert_eq!(next(BridgeEvent::TimedOut), BridgeStep::Rest);
    assert_eq!(next(BridgeEvent::Rested), BridgeStep::ConnectRemote);
    assert_eq!(next(BridgeEvent::Connected), BridgeStep::ConnectLocal);
    assert_eq!(next(BridgeEvent::Refused), BridgeStep::Rest);
    assert_eq!(next(BridgeEvent::Rested), BridgeStep::ConnectRemote);
    assert_eq!(next(BridgeEvent::Connected), BridgeStep::ConnectLocal);
    assert_eq!(next(BridgeEvent::Connected), BridgeStep::Transfer);
    assert_eq!(next(BridgeEvent::Broken), BridgeStep::Rest);
}

#[test]
fn bridge_stops_when_cancelled() {
    for phase in [
        BridgePhase::ConnectingRemote,
        BridgePhase::ConnectingLocal,
        BridgePhase::Transferring,
        BridgePhase::Resting,
    ] {
        let mut p = phase;
        assert_eq!(tcp_bridge(&mut p, BridgeEvent::Cancelled), BridgeStep::Stop);
        assert_eq!(p, BridgePhase::Over);
    }
}

#[test]
fn media_bridge_runs_once() {
    let mut b = MediaBridge::new("10.0.0.7", &MediaTapEndpoint { port: 12345, local_port: 12350 });
    assert!(matches!(
        b.media_tap_reverse_bridge_once(BridgeEvent::Begin, ""),
        MediaStep::ConnectRemote(a) if a == "10.0.0.7:12345"
    ));
    assert!(matches!(
        b.media_tap_reverse_bridge_once(BridgeEvent::Connected, ""),
        MediaStep::ConnectLocal(a) if a == "127.0.0.1:12350"
    ));
    assert!(matches!(b.media_tap_reverse_bridge_once(BridgeEvent::Connected, ""), MediaStep::Transfer));
    assert!(matches!(b.media_tap_reverse_bridge_once(BridgeEvent::Closed, ""), MediaStep::Finished));
    assert_eq!(b.phase, BridgePhase::Over);
}

#[test]
fn media_bridge_tells_which_side_is_late() {
    let endpoint = MediaTapEndpoint { port: 1, local_port: 2 };
    let mut b = MediaBridge::new("10.0.0.7", &endpoint);
    b.media_tap_reverse_bridge_once(BridgeEvent::Begin, "");
    assert!(matches!(
        b.media_tap_reverse_bridge_once(BridgeEvent::TimedOut, "deadline has elapsed"),
        MediaStep::TimedOut(m)
            if m == "media reverse bridge timeout connecting remote 10.0.0.7:1: deadline has elapsed"
    ));
    let mut b = MediaBridge::new("10.0.0.7", &endpoint);
    b.media_tap_reverse_bridge_once(BridgeEvent::Begin, "");
    b.media_tap_reverse_bridge_once(BridgeEvent::Connected, "");
    assert!(matches!(
        b.media_tap_reverse_bridge_once(BridgeEvent::TimedOut, "late"),
        MediaStep::TimedOut(m) if m == "media reverse bridge timeout connecting local 127.0.0.1:2: late"
    ));
}

#[test]
fn media_bridge_fails_with_its_connections() {
    let endpoint = MediaTapEndpoint { port: 1, local_port: 2 };
    let mut b = MediaBridge::new("10.0.0.7", &endpoint);
    b.media_tap_reverse_bridge_once(BridgeEvent::Begin, "");
    assert!(matches!(b.media_tap_reverse_bridge_once(BridgeEvent::Refused, "no"), MediaStep::Failed));
}

#[test]
fn host_and_port_are_joined() {
    assert_eq!(host_port_text("10.0.0.7", 0), "10.0.0.7:0");
    assert_eq!(host_port_text("fe80::1", 65535), "fe80::1:65535");
}

#[test]
fn loopback_addresses_are_known() {
    assert!(is_loopback(&PeerIp::V4([127, 0, 0, 1])));
    assert!(is_loopback(&PeerIp::V4([127, 9, 9, 9])));
    assert!(!is_loopback(&PeerIp::V4([10, 0, 0, 127])));
    let mut six = [0u8; 16];
    assert!(!is_loopback(&PeerIp::V6(six)));
    six[15] = 1;
    assert!(is_loopback(&PeerIp::V6(six)));
    six[3] = 1;
    assert!(!is_loopback(&PeerIp::V6(six)));
}

#[test]
fn addresses_are_dotted() {
    assert_eq!(ipv4_text(&[192, 168, 0, 10]), "192.168.0.10");
}

#[test]
fn hardware_address_is_looked_up() {
    let t = table(&[
        HEADING,
        "10.0.0.2         0x1         0x2         aa:bb:cc:dd:ee:01     *        wlan0",
        "10.0.0.22        0x1         0x2         aa:bb:cc:dd:ee:02     *        wlan0",
    ]);
    assert_eq!(mac_from_ipv4(&PeerIp::V4([10, 0, 0, 22]), &t), Some([0xaa, 0xbb, 0xcc, 0xdd, 0xee, 2]));
    assert_eq!(mac_from_ipv4(&PeerIp::V4([10, 0, 0, 2]), &t), Some([0xaa, 0xbb, 0xcc, 0xdd, 0xee, 1]));
    assert_eq!(mac_from_ipv4(&PeerIp::V4([10, 0, 0, 3]), &t), None);
    assert_eq!(mac_from_ipv4(&PeerIp::V6([0; 16]), &t), None);
    assert_eq!(mac_from_ipv4(&PeerIp::V4([10, 0, 0, 3]), &vec![]), None);
}

#[test]
fn heading_and_broken_rows_are_passed_over() {
    let t = table(&[
        "10.0.0.2 0x1 0x2 aa:bb:cc:dd:ee:00 * wlan0",
        "10.0.0.2 0x1 0x2",
        "10.0.0.2 0x1 0x0 nothing * wlan0",
        "10.0.0.2 0x1 0x2 aa:bb:cc:dd:ee:03 * wlan0",
    ]);
    assert_eq!(mac_from_ipv4(&PeerIp::V4([10, 0, 0, 2]), &t), Some([0xaa, 0xbb, 0xcc, 0xdd, 0xee, 3]));
}

#[test]
fn rows_of_others_have_no_column() {
    assert_eq!(hardware_text("10.0.0.3 0x1 0x2 aa:bb", &"10.0.0.2".to_string()), None);
    assert_eq!(hardware_text("10.0.0.2 0x1 0x2 aa:bb", &"10.0.0.2".to_string()), Some("aa:bb".to_string()));
}

#[test]
fn access_point_is_told_whom_to_drop() {
    assert_eq!(
        disassociate_args(&[0xaa, 0xbb, 0xcc, 0, 1, 2]),
        vec!["disassociate".to_string(), "AA:BB:CC:00:01:02".to_string()]
    );
}

#[test]
fn hardware_address_may_have_hyphens_or_no_separators() {
    let lookup = |column: &str| {
        let row = format!("10.0.0.2 0x1 0x2 {} * wlan0", column);
        mac_from_ipv4(&PeerIp::V4([10, 0, 0, 2]), &table(&[HEADING, row.as_str()]))
    };
    assert_eq!(lookup("01-23-45-67-89-AB"), Some([0x01, 0x23, 0x45, 0x67, 0x89, 0xab]));
    assert_eq!(lookup("0123456789ab"), Some([0x01, 0x23, 0x45, 0x67, 0x89, 0xab]));
    assert_eq!(lookup("00000000000000011"), Some([0x11, 0, 0, 0, 0, 0]));
    assert_eq!(lookup("1:2:3:4:5:6:zz:zz"), Some([1, 2, 3, 4, 5, 6]));
    assert_eq!(lookup("01:23:45:67:89:A"), None);
    assert_eq!(lookup("01:23:45:67:89:AG"), None);
}

use aa_proxy::address::Address;
use aa_proxy::ble::{BleEvent, BlePhase, BleStep};
use aa_proxy::bluetooth::{init, Bluetooth};
use aa_proxy::connect::{elapsed_since, ConnectEvent, ConnectRound, ConnectStep};
use aa_proxy::profile::{
    next_retry_delay, start_index, wants_known_devices, ProfileEvent, ProfileRun, ProfileStep,
};
use std::collections::HashMap;

const SECOND: u128 = 1_000_000_000;

fn device(n: u8) -> Address {
    [n, 0, 0, 0, 0, 0]
}

fn failed(text: &str) -> ConnectEvent {
    ConnectEvent::ConnectFailed(text.to_string())
}

fn bluetooth(dongle_mode: bool) -> Bluetooth {
    init(None, None, true, dongle_mode, None).bluetooth
}

#[test]
fn elapsed_time_does_not_go_below_zero() {
    assert_eq!(elapsed_since(5, 12), 7);
    assert_eq!(elapsed_since(12, 5), 0);
}

#[test]
fn device_is_tried_three_times() {
    let mut cooldowns = HashMap::new();
    let mut round = ConnectRound::new(vec![device(1)], 0);
    let mut next = |e| round.try_connect_bluetooth_addresses(e, &mut cooldowns, 0);
    assert_eq!(next(ConnectEvent::Begin), ConnectStep::Open(device(1)));
    assert_eq!(next(ConnectEvent::DeviceOpened), ConnectStep::Attempt(device(1), 1));
    assert_eq!(next(ConnectEvent::PairingRead(Some(false))), ConnectStep::Attempt(device(1), 2));
    assert_eq!(next(ConnectEvent::PairingRead(Some(true))), ConnectStep::Connect(device(1)));
    assert_eq!(next(failed("refused")), ConnectStep::Attempt(device(1), 3));
    assert_eq!(next(ConnectEvent::PairingRead(None)), ConnectStep::Unreachable);
}

#[test]
fn round_goes_once_around() {
    let mut cooldowns = HashMap::new();
    let mut round = ConnectRound::new(vec![device(1), device(2), device(3)], 1);
    let mut next = |e| round.try_connect_bluetooth_addresses(e, &mut cooldowns, 0);
    assert_eq!(next(ConnectEvent::Begin), ConnectStep::Open(device(2)));
    next(ConnectEvent::DeviceOpened);
    next(ConnectEvent::PairingRead(Some(true)));
    let lost = "Failed: br-connection-page-timeout";
    assert_eq!(next(failed(lost)), ConnectStep::Open(device(3)));
    next(ConnectEvent::DeviceOpened);
    next(ConnectEvent::PairingRead(Some(true)));
    assert_eq!(next(failed(lost)), ConnectStep::Open(device(1)));
    next(ConnectEvent::DeviceOpened);
    next(ConnectEvent::PairingRead(Some(true)));
    assert_eq!(next(failed(lost)), ConnectStep::Unreachable);
    assert_eq!(cooldowns.len(), 3);
}

#[test]
fn next_round_begins_after_the_connected_device() {
    let mut cooldowns = HashMap::new();
    let mut round = ConnectRound::new(vec![device(1), device(2)], 1);
    let mut next = |e| round.try_connect_bluetooth_addresses(e, &mut cooldowns, 0);
    next(ConnectEvent::Begin);
    next(ConnectEvent::DeviceOpened);
    next(ConnectEvent::PairingRead(Some(true)));
    assert_eq!(next(ConnectEvent::Connected), ConnectStep::Connected(0, device(2)));
}

#[test]
fn silent_device_is_left_alone_for_a_minute() {
    let mut cooldowns = HashMap::new();
    let addresses = vec![device(1), device(2)];
    let mut round = ConnectRound::new(addresses.clone(), 0);
    round.try_connect_bluetooth_addresses(ConnectEvent::Begin, &mut cooldowns, 0);
    round.try_connect_bluetooth_addresses(ConnectEvent::DeviceOpened, &mut cooldowns, 0);
    round.try_connect_bluetooth_addresses(ConnectEvent::PairingRead(Some(true)), &mut cooldowns, 0);
    let step = round.try_connect_bluetooth_addresses(
        failed("br-connection-page-timeout"),
        &mut cooldowns,
        SECOND,
    );
    assert_eq!(step, ConnectStep::Open(device(2)));

    let mut early = ConnectRound::new(addresses.clone(), 0);
    let step = early.try_connect_bluetooth_addresses(ConnectEvent::Begin, &mut cooldowns, 61 * SECOND - 1);
    assert_eq!(step, ConnectStep::Open(device(2)));

    let mut late = ConnectRound::new(addresses, 0);
    let step = late.try_connect_bluetooth_addresses(ConnectEvent::Begin, &mut cooldowns, 61 * SECOND);
    assert_eq!(step, ConnectStep::Open(device(1)));
    assert!(cooldowns.is_empty());
}

#[test]
fn unknown_device_ends_the_round() {
    let mut cooldowns = HashMap::new();
    let mut round = ConnectRound::new(vec![device(1), device(2)], 7);
    let step = round.try_connect_bluetooth_addresses(ConnectEvent::Begin, &mut cooldowns, 0);
    assert_eq!(step, ConnectStep::Open(device(2)));
    let step = round.try_connect_bluetooth_addresses(ConnectEvent::DeviceUnavailable, &mut cooldowns, 0);
    assert_eq!(step, ConnectStep::DeviceError);
}

#[test]
fn empty_round_reaches_nobody() {
    let mut round = ConnectRound::new(vec![], 0);
    let step = round.try_connect_bluetooth_addresses(ConnectEvent::Begin, &mut HashMap::new(), 0);
    assert_eq!(step, ConnectStep::Unreachable);
}

#[test]
fn pauses_double_up_to_a_limit() {
    let mut delay = 1;
    let mut seen = vec![];
    for _ in 0..6 {
        seen.push(delay);
        delay = next_retry_delay(delay);
    }
    assert_eq!(seen, vec![1, 2, 4, 8, 15, 15]);
}

#[test]
fn any_address_asks_for_known_devices() {
    assert!(wants_known_devices(&vec![device(1), [0; 6]]));
    assert!(!wants_known_devices(&vec![device(1)]));
    assert!(!wants_known_devices(&vec![]));
}

#[test]
fn last_device_comes_first() {
    let addresses = vec![device(1), device(2), device(3)];
    assert_eq!(start_index(&addresses, &Some(device(3)), 1), 2);
    assert_eq!(start_index(&addresses, &Some(device(9)), 1), 1);
    assert_eq!(start_index(&addresses, &None, 1), 1);
}

#[test]
fn reached_device_is_recorded_and_awaited() {
    let mut b = bluetooth(false);
    let run = ProfileRun::new(Some(vec![device(1), device(2)]), 120 * SECOND, false);
    let (run, step) = b.get_aa_profile_connection(run, ProfileEvent::Begin, 0);
    assert_eq!(step, ProfileStep::Open(device(1)));
    let (run, step) = b.get_aa_profile_connection(run, ProfileEvent::Round(ConnectEvent::DeviceOpened), 0);
    assert_eq!(step, ProfileStep::Attempt(device(1), 1));
    let paired = ProfileEvent::Round(ConnectEvent::PairingRead(Some(true)));
    let (run, step) = b.get_aa_profile_connection(run, paired, 0);
    assert_eq!(step, ProfileStep::Connect(device(1)));
    let (run, step) = b.get_aa_profile_connection(run, ProfileEvent::Round(ConnectEvent::Connected), 0);
    assert_eq!(step, ProfileStep::Record(device(1)));
    assert_eq!(b.current_index, 1);
    assert_eq!(b.last_connected, Some(device(1)));
    let (run, step) = b.get_aa_profile_connection(run, ProfileEvent::Recorded, SECOND);
    assert_eq!(step, ProfileStep::Wait(120 * SECOND));
    let (run, step) = b.get_aa_profile_connection(run, ProfileEvent::Requested, 2 * SECOND);
    assert_eq!(step, ProfileStep::LetIn);
    let (_, step) = b.get_aa_profile_connection(run, ProfileEvent::LetIn(device(4)), 2 * SECOND);
    assert_eq!(step, ProfileStep::Connected(device(4)));
    assert_eq!(b.last_connected, Some(device(4)));
}

#[test]
fn failed_rounds_are_repeated_after_longer_pauses() {
    let mut b = bluetooth(false);
    let run = ProfileRun::new(Some(vec![device(1)]), SECOND, false);
    let (mut run, _) = b.get_aa_profile_connection(run, ProfileEvent::Begin, 0);
    for pause in [1, 2, 4] {
        let (r, step) =
            b.get_aa_profile_connection(run, ProfileEvent::Round(ConnectEvent::DeviceUnavailable), 0);
        assert_eq!(step, ProfileStep::Rest(pause));
        let (r, step) = b.get_aa_profile_connection(r, ProfileEvent::Rested, 0);
        assert_eq!(step, ProfileStep::Open(device(1)));
        run = r;
    }
}

#[test]
fn known_devices_are_listed_on_demand() {
    let mut b = bluetooth(false);
    let run = ProfileRun::new(Some(vec![[0; 6]]), SECOND, false);
    let (run, step) = b.get_aa_profile_connection(run, ProfileEvent::Begin, 0);
    assert_eq!(step, ProfileStep::Enumerate);
    let (_, step) = b.get_aa_profile_connection(run, ProfileEvent::Enumerated(vec![device(5)]), 0);
    assert_eq!(step, ProfileStep::Open(device(5)));

    let run = ProfileRun::new(Some(vec![[0; 6]]), SECOND, false);
    let (run, _) = b.get_aa_profile_connection(run, ProfileEvent::Begin, 0);
    let (_, step) = b.get_aa_profile_connection(run, ProfileEvent::EnumerationFailed, 0);
    assert_eq!(step, ProfileStep::NotEnumerated);
}

#[test]
fn other_proxies_are_joined_by_name() {
    let mut b = bluetooth(true);
    let run = ProfileRun::new(Some(vec![device(1), device(2), device(3)]), SECOND, false);
    let (run, step) = b.get_aa_profile_connection(run, ProfileEvent::Begin, 0);
    assert_eq!(step, ProfileStep::ReadName(device(1)));
    let (run, step) =
        b.get_aa_profile_connection(run, ProfileEvent::Named(Some("AndroidAuto-1".to_string())), 0);
    assert_eq!(step, ProfileStep::Join(device(1)));
    let (run, step) = b.get_aa_profile_connection(run, ProfileEvent::Joined, 0);
    assert_eq!(step, ProfileStep::ReadName(device(2)));
    let (run, step) =
        b.get_aa_profile_connection(run, ProfileEvent::Named(Some("Phone AndroidAuto-".to_string())), 0);
    assert_eq!(step, ProfileStep::ReadName(device(3)));
    let (_, step) = b.get_aa_profile_connection(run, ProfileEvent::Named(None), 0);
    assert_eq!(step, ProfileStep::Wait(SECOND));
}

#[test]
fn nothing_to_reach_means_waiting() {
    let mut b = bluetooth(false);
    let run = ProfileRun::new(None, 7, false);
    let (run, step) = b.get_aa_profile_connection(run, ProfileEvent::Begin, 0);
    assert_eq!(step, ProfileStep::Wait(7));
    let (_, step) = b.get_aa_profile_connection(run, ProfileEvent::TimedOut, 7);
    assert_eq!(step, ProfileStep::TimedOut);

    let run = ProfileRun::new(Some(vec![]), 7, false);
    let (_, step) = b.get_aa_profile_connection(run, ProfileEvent::Begin, 0);
    assert_eq!(step, ProfileStep::Wait(7));
}

#[test]
fn reconnects_right_after_a_stop_are_turned_away() {
    let mut b = bluetooth(false);
    let run = ProfileRun::new(Some(vec![device(1)]), 60 * SECOND, true);
    let (run, step) = b.get_aa_profile_connection(run, ProfileEvent::Begin, 100 * SECOND);
    assert_eq!(step, ProfileStep::Wait(60 * SECOND));
    assert_eq!(b.stopped_at, Some(100 * SECOND));
    let (run, step) = b.get_aa_profile_connection(run, ProfileEvent::Requested, 110 * SECOND - 1);
    assert_eq!(step, ProfileStep::TurnAway);
    let (run, step) = b.get_aa_profile_connection(run, ProfileEvent::TurnedAway, 110 * SECOND - 1);
    assert_eq!(step, ProfileStep::Wait(50 * SECOND + 1));
    let (run, step) = b.get_aa_profile_connection(run, ProfileEvent::Requested, 110 * SECOND);
    assert_eq!(step, ProfileStep::LetIn);
    let (_, step) = b.get_aa_profile_connection(run, ProfileEvent::NotLetIn, 110 * SECOND);
    assert_eq!(step, ProfileStep::Refused);

    let run = ProfileRun::new(None, 60 * SECOND, true);
    b.get_aa_profile_connection(run, ProfileEvent::Begin, 200 * SECOND);
    assert_eq!(b.stopped_at, Some(100 * SECOND));
}

#[test]
fn announcement_falls_back_after_three_tries() {
    let mut phase = BlePhase::New;
    assert_eq!(Bluetooth::start_ble(&mut phase, BleEvent::Begin(true)), BleStep::StartServer);
    assert_eq!(Bluetooth::start_ble(&mut phase, BleEvent::ServerFailed), BleStep::ReadAlias);
    assert_eq!(Bluetooth::start_ble(&mut phase, BleEvent::AliasRead), BleStep::Advertise(true));
    for next in [
        BleStep::Advertise(true),
        BleStep::Advertise(true),
        BleStep::Advertise(false),
        BleStep::Advertise(false),
        BleStep::Advertise(false),
        BleStep::Done(false),
    ] {
        assert_eq!(Bluetooth::start_ble(&mut phase, BleEvent::AdvertiseFailed), BleStep::Pause);
        assert_eq!(Bluetooth::start_ble(&mut phase, BleEvent::Paused), next);
    }
    assert_eq!(phase, BlePhase::Over);
}

#[test]
fn announcement_ends_when_it_is_on_air() {
    let mut phase = BlePhase::New;
    assert_eq!(Bluetooth::start_ble(&mut phase, BleEvent::Begin(false)), BleStep::ReadAlias);
    Bluetooth::start_ble(&mut phase, BleEvent::AliasRead);
    assert_eq!(Bluetooth::start_ble(&mut phase, BleEvent::AdvertiseStarted), BleStep::Done(true));
}

#[test]
fn announcement_needs_a_name() {
    let mut phase = BlePhase::New;
    Bluetooth::start_ble(&mut phase, BleEvent::Begin(false));
    assert_eq!(Bluetooth::start_ble(&mut phase, BleEvent::AliasFailed), BleStep::Failed);
}

#[test]
fn first_of_equal_devices_begins_a_round() {
    assert_eq!(start_index(&vec![device(1), device(2), device(2)], &Some(device(2)), 0), 1);
}

#[test]
fn unpaired_device_is_not_connected_to() {
    let mut cooldowns = HashMap::new();
    let mut round = ConnectRound::new(vec![device(1)], 0);
    let mut next = |e| round.try_connect_bluetooth_addresses(e, &mut cooldowns, 0);
    next(ConnectEvent::Begin);
    next(ConnectEvent::DeviceOpened);
    assert_eq!(next(ConnectEvent::PairingRead(None)), ConnectStep::Attempt(device(1), 2));
    assert_eq!(next(ConnectEvent::PairingRead(Some(false))), ConnectStep::Attempt(device(1), 3));
    assert_eq!(next(ConnectEvent::PairingRead(Some(false))), ConnectStep::Unreachable);
}

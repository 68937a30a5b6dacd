use aa_proxy::bluetooth::{init, Bluetooth};
use aa_proxy::config::Action;
use aa_proxy::launch::{keep_connection, KeeperEvent, KeeperPhase, KeeperStep, Launch, LaunchEvent, LaunchStep};

fn bluetooth(dongle_mode: bool) -> Bluetooth {
    init(None, None, true, dongle_mode, None).bluetooth
}

fn course(b: &mut Bluetooth, launch: &mut Launch, events: &[LaunchEvent]) -> Vec<LaunchStep> {
    events.iter().map(|e| b.aa_handshake(launch, *e)).collect()
}

#[test]
fn full_handshake_cleans_up() {
    let mut b = bluetooth(false);
    b.stopped_at = Some(5);
    let mut launch = Launch::new(true, true, false);
    let mut events = vec![LaunchEvent::Begin];
    events.extend(vec![LaunchEvent::Done; 11]);
    assert_eq!(
        course(&mut b, &mut launch, &events),
        vec![
            LaunchStep::PowerOn,
            LaunchStep::RegisterHeadset,
            LaunchStep::Connect,
            LaunchStep::SendParams,
            LaunchStep::ClearStop,
            LaunchStep::NotifyTcp,
            LaunchStep::Shutdown,
            LaunchStep::Pause,
            LaunchStep::Disconnect,
            LaunchStep::UnregisterHeadset,
            LaunchStep::PowerOff,
            LaunchStep::Finished,
        ]
    );
    assert_eq!(b.stopped_at, None);
}

#[test]
fn dongle_has_no_headset_profile() {
    let mut b = bluetooth(true);
    let mut launch = Launch::new(false, false, false);
    let mut events = vec![LaunchEvent::Begin];
    events.extend(vec![LaunchEvent::Done; 6]);
    assert_eq!(
        course(&mut b, &mut launch, &events),
        vec![
            LaunchStep::Connect,
            LaunchStep::SendParams,
            LaunchStep::NotifyTcp,
            LaunchStep::Shutdown,
            LaunchStep::Pause,
            LaunchStep::Disconnect,
            LaunchStep::Finished,
        ]
    );
}

#[test]
fn refused_headset_profile_is_ignored() {
    let mut b = bluetooth(false);
    let mut launch = Launch::new(false, false, true);
    let steps = course(
        &mut b,
        &mut launch,
        &[
            LaunchEvent::Begin,
            LaunchEvent::NotRegistered,
            LaunchEvent::Done,
            LaunchEvent::Done,
            LaunchEvent::Done,
            LaunchEvent::Done,
        ],
    );
    assert_eq!(
        steps,
        vec![
            LaunchStep::RegisterHeadset,
            LaunchStep::Connect,
            LaunchStep::SendParams,
            LaunchStep::NotifyTcp,
            LaunchStep::KeepAlive,
            LaunchStep::Finished,
        ]
    );
    assert!(!launch.headset);
}

#[test]
fn failed_handshake_keeps_the_stop() {
    let mut b = bluetooth(true);
    b.stopped_at = Some(5);
    let mut launch = Launch::new(false, true, false);
    let steps = course(&mut b, &mut launch, &[LaunchEvent::Begin, LaunchEvent::Done, LaunchEvent::Failed]);
    assert_eq!(steps, vec![LaunchStep::Connect, LaunchStep::SendParams, LaunchStep::Failed]);
    assert_eq!(b.stopped_at, Some(5));
}

#[test]
fn kept_connection_repeats_the_exchange() {
    let mut phase = KeeperPhase::New;
    let mut next = |e| keep_connection(&mut phase, true, e);
    assert_eq!(next(KeeperEvent::Begin), KeeperStep::SetConnected(true));
    assert_eq!(next(KeeperEvent::Done), KeeperStep::AwaitRestart);
    for action in [None, Some(Action::Reconnect), Some(Action::Reboot)] {
        assert_eq!(next(KeeperEvent::Restart(action)), KeeperStep::SendParams);
        assert_eq!(next(KeeperEvent::Done), KeeperStep::NotifyTcp);
        assert_eq!(next(KeeperEvent::Done), KeeperStep::AwaitRestart);
    }
    assert_eq!(next(KeeperEvent::Restart(None)), KeeperStep::SendParams);
    assert_eq!(next(KeeperEvent::Failed), KeeperStep::SetConnected(false));
    assert_eq!(next(KeeperEvent::Done), KeeperStep::UnregisterHeadset);
    assert_eq!(next(KeeperEvent::Done), KeeperStep::NotifyMain);
    assert_eq!(next(KeeperEvent::Done), KeeperStep::Finished);
}

#[test]
fn stop_drains_and_disconnects() {
    let mut phase = KeeperPhase::New;
    let mut next = |e| keep_connection(&mut phase, false, e);
    next(KeeperEvent::Begin);
    next(KeeperEvent::Done);
    assert_eq!(next(KeeperEvent::Restart(Some(Action::Stop))), KeeperStep::Shutdown);
    assert_eq!(next(KeeperEvent::Done), KeeperStep::Drain);
    assert_eq!(next(KeeperEvent::Read(256)), KeeperStep::Drain);
    assert_eq!(next(KeeperEvent::Read(0)), KeeperStep::Settle);
    assert_eq!(next(KeeperEvent::Done), KeeperStep::Disconnect);
    assert_eq!(next(KeeperEvent::Done), KeeperStep::SetConnected(false));
    assert_eq!(next(KeeperEvent::Done), KeeperStep::NotifyMain);
    assert_eq!(next(KeeperEvent::Done), KeeperStep::Finished);
}

#[test]
fn drain_ends_when_nothing_comes() {
    let mut phase = KeeperPhase::Draining;
    assert_eq!(keep_connection(&mut phase, false, KeeperEvent::NothingRead), KeeperStep::Settle);
}

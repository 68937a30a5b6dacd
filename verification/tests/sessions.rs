use aa_proxy::config::{Action, AppConfig, Surroundings};
use aa_proxy::direct::{direct_address, tcp_connect_to_aa_server, DirectEvent, DirectPhase, DirectStep};
use aa_proxy::session::{
    flatten, io_loop, media_taps, read_timeout, session_settings, stats_interval, Command, Joined, Session,
    SessionEvent, SessionPhase, SessionSettings,
};

fn settings() -> SessionSettings {
    SessionSettings { direct: false, wired: false, dhu: false, mitm: false, logger: false }
}

fn config() -> AppConfig {
    AppConfig::defaults(Surroundings {
        connect: String::new(),
        ev_connector_types: String::new(),
        wifi_version: None,
        five_ghz_band: None,
        five_ghz_channel: None,
    })
}

fn commands(s: &mut Session, events: &[SessionEvent]) -> Vec<Command> {
    events.iter().flat_map(|e| io_loop(s, *e)).collect()
}

#[test]
fn wireless_session_with_a_car() {
    let mut s = Session::new(settings());
    let all = commands(
        &mut s,
        &[
            SessionEvent::Begin,
            SessionEvent::HandshakeDone,
            SessionEvent::Done,
            SessionEvent::PhoneLookedUp(true),
            SessionEvent::Done,
            SessionEvent::Done,
            SessionEvent::Ended(true),
            SessionEvent::ActionIs(Some(Action::Stop)),
        ],
    );
    assert_eq!(
        all,
        vec![
            Command::AwaitHandshake,
            Command::AcceptPhone,
            Command::LookUpPhone,
            Command::SetUsbConnected(false),
            Command::OpenAccessory,
            Command::DuplicateAccessory,
            Command::Run { watch_usb: false },
            Command::CancelBridges,
            Command::ClearMediaEndpoints,
            Command::AbortTasks,
            Command::ShutDownPhone,
            Command::Disassociate,
            Command::WithdrawSender,
            Command::ClearSensorChannel,
            Command::ClearInputChannel,
            Command::ReportTime,
            Command::ReadAction,
            Command::NotifyRestart(Some(Action::Stop)),
            Command::SetUsbConnected(false),
            Command::BeginAgain,
        ]
    );
    assert_eq!(s.phase, SessionPhase::Over);
}

#[test]
fn wired_session_with_an_emulator() {
    let mut s = Session::new(SessionSettings { wired: true, dhu: true, mitm: true, logger: true, ..settings() });
    let all = commands(
        &mut s,
        &[
            SessionEvent::Begin,
            SessionEvent::UsbConnected,
            SessionEvent::Done,
            SessionEvent::Ended(true),
            SessionEvent::Done,
            SessionEvent::ActionIs(None),
        ],
    );
    assert_eq!(
        all,
        vec![
            Command::AwaitUsbOrHandshake,
            Command::SetUsbConnected(true),
            Command::AcceptHeadUnit,
            Command::PublishSender,
            Command::Run { watch_usb: false },
            Command::ResetUsb,
            Command::ClearMediaEndpoints,
            Command::AbortTasks,
            Command::ShutDownHeadUnit,
            Command::WithdrawSender,
            Command::ClearSensorChannel,
            Command::ClearInputChannel,
            Command::StopLogger,
            Command::ReportTime,
            Command::ReadAction,
            Command::NotifyRestart(None),
            Command::SetUsbConnected(false),
            Command::BeginAgain,
        ]
    );
}

#[test]
fn wireless_session_watches_for_a_cable() {
    let mut s = Session::new(SessionSettings { wired: true, dhu: true, ..settings() });
    let all = commands(
        &mut s,
        &[
            SessionEvent::Begin,
            SessionEvent::HandshakeDone,
            SessionEvent::Done,
            SessionEvent::PhoneLookedUp(false),
            SessionEvent::Done,
        ],
    );
    assert_eq!(
        all,
        vec![
            Command::AwaitUsbOrHandshake,
            Command::AcceptPhone,
            Command::LookUpPhone,
            Command::AcceptHeadUnit,
            Command::Run { watch_usb: true },
        ]
    );
    let end = io_loop(&mut s, SessionEvent::Ended(false));
    assert!(end.contains(&Command::CancelBridges));
    assert!(!end.contains(&Command::Disassociate));
}

#[test]
fn server_is_connected_to_last() {
    let mut s = Session::new(SessionSettings { direct: true, ..settings() });
    let all = commands(
        &mut s,
        &[SessionEvent::Begin, SessionEvent::Done, SessionEvent::Done, SessionEvent::Done],
    );
    assert_eq!(
        all,
        vec![
            Command::SetUsbConnected(false),
            Command::OpenAccessory,
            Command::ConnectDirectly,
            Command::KeepServerAddress,
            Command::DuplicateAccessory,
            Command::Run { watch_usb: false },
        ]
    );
    let end = io_loop(&mut s, SessionEvent::Ended(false));
    assert!(!end.contains(&Command::CancelBridges));
    assert!(end.contains(&Command::ShutDownPhone));
}

#[test]
fn unreachable_server_is_announced_before_the_pause() {
    let mut s = Session::new(SessionSettings { direct: true, dhu: true, ..settings() });
    let all = commands(
        &mut s,
        &[SessionEvent::Begin, SessionEvent::Done, SessionEvent::Failed, SessionEvent::Done],
    );
    assert_eq!(
        all[2..].to_vec(),
        vec![
            Command::ConnectDirectly,
            Command::NotifyRestart(None),
            Command::Pause(500),
            Command::BeginAgain,
        ]
    );
}

#[test]
fn busy_accessory_is_given_time() {
    let mut s = Session::new(SessionSettings { direct: true, ..settings() });
    io_loop(&mut s, SessionEvent::Begin);
    assert_eq!(io_loop(&mut s, SessionEvent::Busy), vec![Command::Pause(5000)]);
    assert_eq!(
        io_loop(&mut s, SessionEvent::Done),
        vec![Command::NotifyRestart(None), Command::BeginAgain]
    );
}

#[test]
fn failures_before_data_flows_are_announced_at_once() {
    let failed = vec![Command::NotifyRestart(None), Command::BeginAgain];

    let mut s = Session::new(settings());
    commands(&mut s, &[SessionEvent::Begin, SessionEvent::HandshakeDone]);
    assert_eq!(io_loop(&mut s, SessionEvent::Failed), failed);

    let mut s = Session::new(SessionSettings { direct: true, ..settings() });
    io_loop(&mut s, SessionEvent::Begin);
    assert_eq!(io_loop(&mut s, SessionEvent::Failed), failed);

    let mut s = Session::new(SessionSettings { direct: true, dhu: true, ..settings() });
    io_loop(&mut s, SessionEvent::Begin);
    assert_eq!(io_loop(&mut s, SessionEvent::Failed), failed);

    let mut s = Session::new(SessionSettings { direct: true, ..settings() });
    commands(&mut s, &[SessionEvent::Begin, SessionEvent::Done, SessionEvent::Done]);
    assert_eq!(io_loop(&mut s, SessionEvent::Failed), failed);
}

#[test]
fn lost_logger_ends_everything() {
    let mut s = Session::new(SessionSettings { direct: true, dhu: true, logger: true, ..settings() });
    commands(
        &mut s,
        &[SessionEvent::Begin, SessionEvent::Done, SessionEvent::Done, SessionEvent::Ended(false)],
    );
    assert_eq!(s.phase, SessionPhase::StoppingLogger);
    assert_eq!(io_loop(&mut s, SessionEvent::Failed), vec![Command::Leave]);
    assert_eq!(s.phase, SessionPhase::Left);
}

#[test]
fn session_goes_by_its_configuration() {
    let mut c = config();
    assert_eq!(session_settings(&c, "  "), settings());
    c.wired = Some("1:2".to_string());
    c.dhu = true;
    c.mitm = true;
    c.ev_battery_logger = Some("/bin/log".to_string());
    assert_eq!(
        session_settings(&c, " 10.0.0.2:5277 "),
        SessionSettings { direct: true, wired: true, dhu: true, mitm: true, logger: true }
    );
}

#[test]
fn intervals_come_from_the_configuration() {
    let mut c = config();
    assert_eq!((stats_interval(&c), read_timeout(&c)), (None, 10));
    c.stats_interval = 3;
    c.timeout_secs = 0;
    assert_eq!((stats_interval(&c), read_timeout(&c)), (Some(3), 0));
}

#[test]
fn media_streams_need_packets_to_be_looked_into() {
    let mut c = config();
    assert_eq!((media_taps(&c).base_port, media_taps(&c).disabled), (None, false));
    c.media_dump_base_port = Some(12345);
    assert_eq!((media_taps(&c).base_port, media_taps(&c).disabled), (None, true));
    c.mitm = true;
    assert_eq!((media_taps(&c).base_port, media_taps(&c).disabled), (Some(12345), false));
}

#[test]
fn server_address_is_trimmed() {
    assert_eq!(direct_address(" 10.0.0.2:5277\n"), Some("10.0.0.2:5277".to_string()));
    assert_eq!(direct_address(" "), None);
}

#[test]
fn server_is_connected_to_in_three_stages() {
    let mut phase = DirectPhase::Parsing;
    let mut next = |e| tcp_connect_to_aa_server(&mut phase, e, "10.0.0.2:5277", "");
    assert!(matches!(next(DirectEvent::Done), DirectStep::Connect));
    assert!(matches!(next(DirectEvent::Done), DirectStep::SetNoDelay));
    assert!(matches!(next(DirectEvent::Done), DirectStep::Connected));
}

#[test]
fn server_that_is_not_reached_is_told_of() {
    let mut phase = DirectPhase::Parsing;
    assert!(matches!(
        tcp_connect_to_aa_server(&mut phase, DirectEvent::Failed, "a\"b", "invalid socket address syntax"),
        DirectStep::Invalid(m)
            if m == "invalid aa_server_tcp_addr \"a\\\"b\": invalid socket address syntax"
    ));
    let mut phase = DirectPhase::Connecting;
    assert!(matches!(
        tcp_connect_to_aa_server(&mut phase, DirectEvent::TimedOut, "10.0.0.2:5277", "deadline has elapsed"),
        DirectStep::TimedOut(m)
            if m == "MD direct TCP connect timeout to 10.0.0.2:5277: deadline has elapsed"
    ));
    let mut phase = DirectPhase::Connecting;
    assert!(matches!(
        tcp_connect_to_aa_server(&mut phase, DirectEvent::Failed, "10.0.0.2:5277", "refused"),
        DirectStep::Failed
    ));
    let mut phase = DirectPhase::Tuning;
    assert!(matches!(
        tcp_connect_to_aa_server(&mut phase, DirectEvent::Failed, "10.0.0.2:5277", "refused"),
        DirectStep::Failed
    ));
}

#[test]
fn lost_task_counts_as_failed() {
    assert_eq!(flatten(Joined::Returned(Ok(3))), Ok(3));
    assert_eq!(flatten::<u8>(Joined::Returned(Err("x".to_string()))), Err("x".to_string()));
    assert_eq!(flatten::<u8>(Joined::Lost), Err("handling failed".to_string()));
}

#[test]
fn restart_is_announced_once_in_every_course() {
    let told = |c: &Vec<Command>| c.iter().filter(|c| matches!(c, Command::NotifyRestart(_))).count();
    let mut s = Session::new(SessionSettings { direct: true, dhu: true, mitm: true, ..settings() });
    let mut all = commands(&mut s, &[SessionEvent::Begin, SessionEvent::Done, SessionEvent::Done]);
    assert_eq!(told(&all), 0);
    assert_eq!(all.last(), Some(&Command::Run { watch_usb: false }));
    all.extend(commands(&mut s, &[SessionEvent::Ended(true), SessionEvent::ActionIs(None)]));
    assert_eq!(told(&all), 1);
    let published = all.iter().position(|c| *c == Command::PublishSender).unwrap();
    let withdrawn = all.iter().position(|c| *c == Command::WithdrawSender).unwrap();
    assert!(published < withdrawn);

    let mut s = Session::new(SessionSettings { direct: true, dhu: true, ..settings() });
    let all = commands(
        &mut s,
        &[SessionEvent::Begin, SessionEvent::Done, SessionEvent::Failed, SessionEvent::Done],
    );
    assert_eq!(told(&all), 1);
}

#[test]
fn longest_session_takes_nine_events() {
    let mut s = Session::new(SessionSettings { wired: true, logger: true, ..settings() });
    let events = [
        SessionEvent::Begin,
        SessionEvent::HandshakeDone,
        SessionEvent::Done,
        SessionEvent::PhoneLookedUp(true),
        SessionEvent::Done,
        SessionEvent::Done,
        SessionEvent::Ended(true),
        SessionEvent::Done,
        SessionEvent::ActionIs(Some(Action::Reboot)),
    ];
    let all = commands(&mut s, &events);
    assert_eq!(s.phase, SessionPhase::Over);
    assert_eq!(
        all[all.len() - 3..].to_vec(),
        vec![
            Command::NotifyRestart(Some(Action::Reboot)),
            Command::SetUsbConnected(false),
            Command::BeginAgain,
        ]
    );
}

#[test]
fn bridges_end_with_a_session_that_is_given_up() {
    let over = vec![Command::NotifyRestart(None), Command::CancelBridges, Command::BeginAgain];
    let accepted = [
        SessionEvent::Begin,
        SessionEvent::HandshakeDone,
        SessionEvent::Done,
        SessionEvent::PhoneLookedUp(true),
    ];

    let mut s = Session::new(SessionSettings { dhu: true, ..settings() });
    commands(&mut s, &accepted);
    assert_eq!(io_loop(&mut s, SessionEvent::Failed), over);

    let mut s = Session::new(settings());
    commands(&mut s, &accepted);
    assert_eq!(io_loop(&mut s, SessionEvent::Failed), over);

    let mut s = Session::new(settings());
    commands(&mut s, &accepted);
    assert_eq!(io_loop(&mut s, SessionEvent::Busy), vec![Command::Pause(5000)]);
    assert_eq!(io_loop(&mut s, SessionEvent::Done), over);

    let mut s = Session::new(SessionSettings { wired: true, ..settings() });
    commands(&mut s, &accepted);
    assert_eq!(io_loop(&mut s, SessionEvent::Done), vec![Command::DuplicateAccessory]);
    assert_eq!(io_loop(&mut s, SessionEvent::Failed), over);
    assert_eq!(s.phase, SessionPhase::Over);
}

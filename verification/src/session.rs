//! A session: from waiting for a phone to carrying data between phone and head unit, and the
//! cleaning up after it.

use vstd::prelude::*;
use crate::config::{Action, AppConfig};
use crate::direct::direct_address;
use crate::text::{law_nothing_is_left_of_white_space, trimmed, white_space};

verus! {

/// The device file of the USB accessory.
pub const USB_ACCESSORY_PATH: &'static str = "/dev/usb_accessory";

/// The size of the buffers for reading, in bytes.
pub const BUFFER_LEN: usize = 16 * 1024;

/// How many packets wait between two tasks. Few, so that they do not wait for long.
pub const MITM_QUEUE_CAPACITY: usize = 10;

/// The pause between two looks for a USB device, in milliseconds.
pub const USB_POLL_MS: u64 = 100;

/// The pause after the accessory was found busy, in milliseconds. Without it the next handshake
/// would follow at once, and again and again.
pub const BUSY_PAUSE_MS: u64 = 5000;

/// The pause after a server could not be reached, in milliseconds.
pub const UNREACHABLE_PAUSE_MS: u64 = 500;

/// The seconds between two reports, where zero means that there are none.
pub fn stats_interval(config: &AppConfig) -> (r: Option<u64>)
    ensures
        r == (if config.stats_interval == 0 {
            None
        } else {
            Some(config.stats_interval as u64)
        }),
{
    if config.stats_interval == 0 {
        None
    } else {
        Some(config.stats_interval as u64)
    }
}

/// The seconds after which a silent transfer counts as stalled.
pub fn read_timeout(config: &AppConfig) -> (secs: u64)
    ensures
        secs == config.timeout_secs,
{
    config.timeout_secs as u64
}

/// Which ports media streams are offered on.
#[derive(Debug, Clone, Copy, PartialEq, Eq, Structural)]
pub struct MediaTaps {
    /// The first port, if there are any.
    pub base_port: Option<u16>,
    /// Whether ports are configured that cannot be offered.
    pub disabled: bool,
}

/// Which ports media streams are offered on: the configured ones, but none unless packets are
/// looked into.
pub fn media_taps(config: &AppConfig) -> (taps: MediaTaps)
    ensures
        taps.base_port == (if config.mitm {
            config.media_dump_base_port
        } else {
            None
        }),
        taps.disabled <==> config.media_dump_base_port is Some && !config.mitm,
{
    MediaTaps {
        base_port: if config.mitm {
            config.media_dump_base_port
        } else {
            None
        },
        disabled: config.media_dump_base_port.is_some() && !config.mitm,
    }
}

/// What a task has come to.
#[derive(Debug)]
pub enum Joined<T> {
    /// It returned.
    Returned(Result<T, String>),
    /// It was aborted, or it panicked.
    Lost,
}

/// What a task returned, where one that did not return counts as failed.
pub fn flatten<T>(joined: Joined<T>) -> (r: Result<T, String>)
    ensures
        match joined {
            Joined::Returned(result) => r == result,
            Joined::Lost => r matches Err(e) && e@ == "handling failed"@,
        },
{
    match joined {
        Joined::Returned(result) => result,
        Joined::Lost => Err("handling failed".to_owned()),
    }
}

/// What a session goes by.
#[derive(Debug, Clone, Copy, PartialEq, Eq, Structural)]
pub struct SessionSettings {
    /// Whether the proxy connects to a server in place of waiting for a phone.
    pub direct: bool,
    /// Whether a phone may be on USB.
    pub wired: bool,
    /// Whether the head unit is an emulator on the network.
    pub dhu: bool,
    /// Whether packets are looked into.
    pub mitm: bool,
    /// Whether the battery of the car is logged.
    pub logger: bool,
}

/// What a session goes by, from the configuration as it is when the session begins.
pub fn session_settings(config: &AppConfig, aa_server_tcp_addr: &str) -> (s: SessionSettings)
    ensures
        s.direct <==> trimmed(aa_server_tcp_addr@).len() > 0,
        s.wired <==> config.wired is Some,
        s.dhu == config.dhu,
        s.mitm == config.mitm,
        s.logger <==> config.ev_battery_logger is Some,
{
    SessionSettings {
        direct: direct_address(aa_server_tcp_addr).is_some(),
        wired: config.wired.is_some(),
        dhu: config.dhu,
        mitm: config.mitm,
        logger: config.ev_battery_logger.is_some(),
    }
}

/// How an end is reached.
#[derive(Debug, Clone, Copy, PartialEq, Eq, Structural)]
pub enum Link {
    Absent,
    Tcp,
    Usb,
}

/// Where a session stands.
#[derive(Debug, Clone, Copy, PartialEq, Eq, Structural)]
pub enum SessionPhase {
    New,
    AwaitingUsbOrHandshake,
    AwaitingHandshake,
    AcceptingPhone,
    LookingUpPhone,
    AcceptingHeadUnit,
    OpeningAccessory,
    AwaitingAccessory,
    ConnectingDirectly,
    PausingAfterDirect,
    DuplicatingAccessory,
    Running,
    StoppingLogger,
    ReadingAction,
    /// The session is over, and another one follows.
    Over,
    /// The session is over, and no other follows.
    Left,
}

/// A session.
#[derive(Debug, Clone, Copy, PartialEq, Eq, Structural)]
pub struct Session {
    pub settings: SessionSettings,
    /// How the phone is reached.
    pub phone: Link,
    /// How the head unit is reached.
    pub head_unit: Link,
    /// Whether bridges for the phone may be running.
    pub bridges: bool,
    /// Whether the hardware address of the phone is known.
    pub known: bool,
    pub phase: SessionPhase,
}

/// What happened to what a session asked for.
#[derive(Debug, Clone, Copy, PartialEq, Eq, Structural)]
pub enum SessionEvent {
    /// The session begins.
    Begin,
    /// A phone is on USB.
    UsbConnected,
    /// A phone was told over Bluetooth to connect.
    HandshakeDone,
    /// It is done.
    Done,
    /// It failed.
    Failed,
    /// It failed because the device is in use.
    Busy,
    /// The hardware address of the phone is known, or it is not.
    PhoneLookedUp(bool),
    /// The tasks have ended, with an error or without.
    Ended(bool),
    /// This is what the user asks for.
    ActionIs(Option<Action>),
}

/// What is to be done. The last command of a step is the one that an event answers, unless it
/// ends the session.
#[derive(Debug, Clone, Copy, PartialEq, Eq, Structural)]
pub enum Command {
    /// Tell the rest of the program whether a phone is on USB.
    SetUsbConnected(bool),
    /// Wait for a phone on USB, or for a handshake over Bluetooth.
    AwaitUsbOrHandshake,
    /// Wait for a handshake over Bluetooth.
    AwaitHandshake,
    /// Accept a connection from the phone, and begin bridges for it.
    AcceptPhone,
    /// Look up the hardware address of the phone.
    LookUpPhone,
    /// Accept a connection from the emulator of a head unit.
    AcceptHeadUnit,
    /// Open the USB accessory.
    OpenAccessory,
    /// Wait for so many milliseconds.
    Pause(u64),
    /// Connect to the server.
    ConnectDirectly,
    /// Take the address of the server for that of the companion application.
    KeepServerAddress,
    /// Duplicate the handle of the USB accessory, so that it can be read and written at once.
    DuplicateAccessory,
    /// Let others send packets into the session.
    PublishSender,
    /// Begin to carry data, and wait until that ends. If told so, end it when a phone appears on
    /// USB.
    Run { watch_usb: bool },
    /// Reset the USB device of the phone.
    ResetUsb,
    /// Stop the bridges.
    CancelBridges,
    /// Forget the media streams of the session.
    ClearMediaEndpoints,
    /// Abort all tasks of the session.
    AbortTasks,
    /// Close the connection to the phone.
    ShutDownPhone,
    /// Close the connection to the emulator of a head unit.
    ShutDownHeadUnit,
    /// Have the access point drop the phone.
    Disassociate,
    /// Let nobody send packets into the session any more.
    WithdrawSender,
    /// Forget the channel for sensors.
    ClearSensorChannel,
    /// Forget the channel for input.
    ClearInputChannel,
    /// Stop the logger.
    StopLogger,
    /// Say how long the session lasted.
    ReportTime,
    /// Find out what the user asks for.
    ReadAction,
    /// Tell the rest of the program that the session is over, and what the user asks for.
    NotifyRestart(Option<Action>),
    /// Begin another session.
    BeginAgain,
    /// Leave, with the error that was just met.
    Leave,
}

/// A step of a session: where it stands afterwards, and what is to be done.
pub type SessionStep = (Session, Seq<Command>);

impl Session {
    /// A session at its beginning.
    pub fn new(settings: SessionSettings) -> (s: Session)
        ensures
            s == fresh_session(settings),
    {
        Session {
            settings,
            phone: Link::Absent,
            head_unit: Link::Absent,
            bridges: false,
            known: false,
            phase: SessionPhase::New,
        }
    }

    /// The session in another phase.
    pub open spec fn at(self, phase: SessionPhase) -> Session {
        Session { phase, ..self }
    }

    /// The session with this way to the phone.
    pub open spec fn with_phone(self, phone: Link) -> Session {
        Session { phone, ..self }
    }

    /// The session with this way to the head unit.
    pub open spec fn with_head_unit(self, head_unit: Link) -> Session {
        Session { head_unit, ..self }
    }

    /// The session comes to nothing. Bridges that were begun for a phone end with it.
    pub open spec fn given_up(self) -> SessionStep {
        (
            self.at(SessionPhase::Over),
            seq![Command::NotifyRestart(None)] + optional(self.bridges, Command::CancelBridges)
                + seq![Command::BeginAgain],
        )
    }

    /// The side of the phone is ready, as far as it has to be; the head unit is next.
    pub open spec fn phone_ready(self) -> SessionStep {
        if self.settings.dhu {
            (self.at(SessionPhase::AcceptingHeadUnit), seq![Command::AcceptHeadUnit])
        } else {
            (self.at(SessionPhase::OpeningAccessory), seq![Command::OpenAccessory])
        }
    }

    /// The head unit is ready. A server is connected to only now, so that the connection is
    /// fresh.
    pub open spec fn head_unit_ready(self) -> SessionStep {
        if self.settings.direct {
            (self.at(SessionPhase::ConnectingDirectly), seq![Command::ConnectDirectly])
        } else {
            self.both_ready()
        }
    }

    /// Both ends are there.
    pub open spec fn both_ready(self) -> SessionStep {
        if self.head_unit == Link::Usb {
            (self.at(SessionPhase::DuplicatingAccessory), seq![Command::DuplicateAccessory])
        } else {
            self.started()
        }
    }

    /// Data is carried.
    pub open spec fn started(self) -> SessionStep {
        let run = Command::Run { watch_usb: self.settings.wired && self.phone != Link::Usb };
        (
            self.at(SessionPhase::Running),
            if self.settings.mitm {
                seq![Command::PublishSender, run]
            } else {
                seq![run]
            },
        )
    }

    /// What is stopped first when no data is carried any more.
    pub open spec fn stopping(self, failed: bool) -> Seq<Command> {
        optional(failed && self.phone == Link::Usb, Command::ResetUsb) + optional(
            self.bridges,
            Command::CancelBridges,
        ) + seq![Command::ClearMediaEndpoints, Command::AbortTasks]
    }

    /// What is closed then.
    pub open spec fn parting(self) -> Seq<Command> {
        optional(self.phone == Link::Tcp, Command::ShutDownPhone) + optional(
            self.head_unit == Link::Tcp,
            Command::ShutDownHeadUnit,
        ) + optional(self.known, Command::Disassociate) + seq![
            Command::WithdrawSender,
            Command::ClearSensorChannel,
            Command::ClearInputChannel,
        ]
    }

    /// What is done when no data is carried any more, up to what may fail.
    pub open spec fn cleanup(self, failed: bool) -> Seq<Command> {
        self.stopping(failed) + self.parting()
    }

    /// What is done last before the session is over.
    pub open spec fn closing() -> Seq<Command> {
        seq![Command::ReportTime, Command::ReadAction]
    }

    /// Whether `event` can happen here.
    pub open spec fn accepts(self, event: SessionEvent) -> bool {
        match self.phase {
            SessionPhase::New => event == SessionEvent::Begin,
            SessionPhase::AwaitingUsbOrHandshake => event == SessionEvent::UsbConnected || event
                == SessionEvent::HandshakeDone,
            SessionPhase::AwaitingHandshake => event == SessionEvent::HandshakeDone,
            SessionPhase::LookingUpPhone => event is PhoneLookedUp,
            SessionPhase::OpeningAccessory => event == SessionEvent::Done || event
                == SessionEvent::Failed || event == SessionEvent::Busy,
            SessionPhase::AcceptingPhone
            | SessionPhase::AcceptingHeadUnit
            | SessionPhase::ConnectingDirectly
            | SessionPhase::DuplicatingAccessory
            | SessionPhase::StoppingLogger => event == SessionEvent::Done || event
                == SessionEvent::Failed,
            SessionPhase::AwaitingAccessory | SessionPhase::PausingAfterDirect => event
                == SessionEvent::Done,
            SessionPhase::Running => event is Ended,
            SessionPhase::ReadingAction => event is ActionIs,
            SessionPhase::Over | SessionPhase::Left => false,
        }
    }

    /// What follows an event.
    pub open spec fn after(self, event: SessionEvent) -> SessionStep {
        match (self.phase, event) {
            (SessionPhase::New, _) => if self.settings.direct {
                let (next, commands) = self.phone_ready();
                (next, seq![Command::SetUsbConnected(false)] + commands)
            } else if self.settings.wired {
                (self.at(SessionPhase::AwaitingUsbOrHandshake), seq![Command::AwaitUsbOrHandshake])
            } else {
                (self.at(SessionPhase::AwaitingHandshake), seq![Command::AwaitHandshake])
            },
            (SessionPhase::AwaitingUsbOrHandshake, SessionEvent::UsbConnected) => {
                let (next, commands) = self.with_phone(Link::Usb).phone_ready();
                (next, seq![Command::SetUsbConnected(true)] + commands)
            },
            (SessionPhase::AwaitingUsbOrHandshake, _) | (SessionPhase::AwaitingHandshake, _) => (
                self.at(SessionPhase::AcceptingPhone),
                seq![Command::AcceptPhone],
            ),
            (SessionPhase::AcceptingPhone, SessionEvent::Done) => (
                Session { bridges: true, ..self.with_phone(Link::Tcp) }.at(
                    SessionPhase::LookingUpPhone,
                ),
                seq![Command::LookUpPhone],
            ),
            (SessionPhase::LookingUpPhone, SessionEvent::PhoneLookedUp(known)) => {
                let (next, commands) = Session { known, ..self }.phone_ready();
                (
                    next,
                    optional(!self.settings.wired, Command::SetUsbConnected(false)) + commands,
                )
            },
            (SessionPhase::AcceptingHeadUnit, SessionEvent::Done) => self.with_head_unit(
                Link::Tcp,
            ).head_unit_ready(),
            (SessionPhase::OpeningAccessory, SessionEvent::Done) => self.with_head_unit(
                Link::Usb,
            ).head_unit_ready(),
            (SessionPhase::OpeningAccessory, SessionEvent::Busy) => (
                self.at(SessionPhase::AwaitingAccessory),
                seq![Command::Pause(BUSY_PAUSE_MS)],
            ),
            (SessionPhase::ConnectingDirectly, SessionEvent::Done) => {
                let (next, commands) = self.with_phone(Link::Tcp).both_ready();
                (next, seq![Command::KeepServerAddress] + commands)
            },
            (SessionPhase::ConnectingDirectly, _) => (
                self.at(SessionPhase::PausingAfterDirect),
                seq![Command::NotifyRestart(None), Command::Pause(UNREACHABLE_PAUSE_MS)],
            ),
            (SessionPhase::PausingAfterDirect, _) => (
                self.at(SessionPhase::Over),
                seq![Command::BeginAgain],
            ),
            (SessionPhase::DuplicatingAccessory, SessionEvent::Done) => self.started(),
            (SessionPhase::Running, SessionEvent::Ended(failed)) => if self.settings.logger {
                (
                    self.at(SessionPhase::StoppingLogger),
                    self.cleanup(failed) + seq![Command::StopLogger],
                )
            } else {
                (
                    self.at(SessionPhase::ReadingAction),
                    self.cleanup(failed) + Session::closing(),
                )
            },
            (SessionPhase::StoppingLogger, SessionEvent::Done) => (
                self.at(SessionPhase::ReadingAction),
                Session::closing(),
            ),
            (SessionPhase::StoppingLogger, _) => (
                self.at(SessionPhase::Left),
                seq![Command::Leave],
            ),
            (SessionPhase::ReadingAction, SessionEvent::ActionIs(action)) => (
                self.at(SessionPhase::Over),
                seq![
                    Command::NotifyRestart(action),
                    Command::SetUsbConnected(false),
                    Command::BeginAgain,
                ],
            ),
            _ => self.given_up(),
        }
    }
}

/// A command, if it is wanted.
pub open spec fn optional(wanted: bool, command: Command) -> Seq<Command> {
    if wanted {
        seq![command]
    } else {
        seq![]
    }
}

/// A session at its beginning.
pub open spec fn fresh_session(settings: SessionSettings) -> Session {
    Session {
        settings,
        phone: Link::Absent,
        head_unit: Link::Absent,
        bridges: false,
        known: false,
        phase: SessionPhase::New,
    }
}

fn push_if(wanted: bool, command: Command, commands: &mut Vec<Command>)
    ensures
        final(commands)@ == old(commands)@ + optional(wanted, command),
{
    if wanted {
        commands.push(command);
    }
}

impl Session {
    fn give_up(&mut self, commands: &mut Vec<Command>)
        ensures
            *final(self) == old(self).given_up().0,
            final(commands)@ == old(commands)@ + old(self).given_up().1,
    {
        self.phase = SessionPhase::Over;
        commands.push(Command::NotifyRestart(None));
        push_if(self.bridges, Command::CancelBridges, commands);
        commands.push(Command::BeginAgain);
    }

    fn go_for_head_unit(&mut self, commands: &mut Vec<Command>)
        ensures
            *final(self) == old(self).phone_ready().0,
            final(commands)@ == old(commands)@ + old(self).phone_ready().1,
    {
        if self.settings.dhu {
            self.phase = SessionPhase::AcceptingHeadUnit;
            commands.push(Command::AcceptHeadUnit);
        } else {
            self.phase = SessionPhase::OpeningAccessory;
            commands.push(Command::OpenAccessory);
        }
    }

    fn go_on_with_head_unit(&mut self, commands: &mut Vec<Command>)
        ensures
            *final(self) == old(self).head_unit_ready().0,
            final(commands)@ == old(commands)@ + old(self).head_unit_ready().1,
    {
        if self.settings.direct {
            self.phase = SessionPhase::ConnectingDirectly;
            commands.push(Command::ConnectDirectly);
        } else {
            self.go_on_with_both(commands);
        }
    }

    fn go_on_with_both(&mut self, commands: &mut Vec<Command>)
        ensures
            *final(self) == old(self).both_ready().0,
            final(commands)@ == old(commands)@ + old(self).both_ready().1,
    {
        if self.head_unit == Link::Usb {
            self.phase = SessionPhase::DuplicatingAccessory;
            commands.push(Command::DuplicateAccessory);
        } else {
            self.start(commands);
        }
    }

    fn start(&mut self, commands: &mut Vec<Command>)
        ensures
            *final(self) == old(self).started().0,
            final(commands)@ == old(commands)@ + old(self).started().1,
    {
        self.phase = SessionPhase::Running;
        if self.settings.mitm {
            commands.push(Command::PublishSender);
        }
        commands.push(
            Command::Run { watch_usb: self.settings.wired && self.phone != Link::Usb },
        );
    }

    fn stop(&self, failed: bool, commands: &mut Vec<Command>)
        ensures
            final(commands)@ == old(commands)@ + self.stopping(failed),
    {
        push_if(failed && self.phone == Link::Usb, Command::ResetUsb, commands);
        push_if(self.bridges, Command::CancelBridges, commands);
        commands.push(Command::ClearMediaEndpoints);
        commands.push(Command::AbortTasks);
    }

    fn part(&self, commands: &mut Vec<Command>)
        ensures
            final(commands)@ == old(commands)@ + self.parting(),
    {
        push_if(self.phone == Link::Tcp, Command::ShutDownPhone, commands);
        push_if(self.head_unit == Link::Tcp, Command::ShutDownHeadUnit, commands);
        push_if(self.known, Command::Disassociate, commands);
        commands.push(Command::WithdrawSender);
        commands.push(Command::ClearSensorChannel);
        commands.push(Command::ClearInputChannel);
    }

    fn close(&mut self, commands: &mut Vec<Command>)
        ensures
            *final(self) == old(self).at(SessionPhase::ReadingAction),
            final(commands)@ == old(commands)@ + Session::closing(),
    {
        self.phase = SessionPhase::ReadingAction;
        commands.push(Command::ReportTime);
        commands.push(Command::ReadAction);
    }
}

/// Takes what happened and says what the session does next, in order.
pub fn io_loop(session: &mut Session, event: SessionEvent) -> (commands: Vec<Command>)
    requires
        old(session).accepts(event),
    ensures
        (*final(session), commands@) == old(session).after(event),
{
    let mut commands: Vec<Command> = Vec::new();
    match session.phase {
        SessionPhase::New => {
            if session.settings.direct {
                commands.push(Command::SetUsbConnected(false));
                session.go_for_head_unit(&mut commands);
            } else if session.settings.wired {
                session.phase = SessionPhase::AwaitingUsbOrHandshake;
                commands.push(Command::AwaitUsbOrHandshake);
            } else {
                session.phase = SessionPhase::AwaitingHandshake;
                commands.push(Command::AwaitHandshake);
            }
        },
        SessionPhase::AwaitingUsbOrHandshake | SessionPhase::AwaitingHandshake => {
            if event == SessionEvent::UsbConnected {
                session.phone = Link::Usb;
                commands.push(Command::SetUsbConnected(true));
                session.go_for_head_unit(&mut commands);
            } else {
                session.phase = SessionPhase::AcceptingPhone;
                commands.push(Command::AcceptPhone);
            }
        },
        SessionPhase::AcceptingPhone => {
            if event == SessionEvent::Done {
                session.phone = Link::Tcp;
                session.bridges = true;
                session.phase = SessionPhase::LookingUpPhone;
                commands.push(Command::LookUpPhone);
            } else {
                session.give_up(&mut commands);
            }
        },
        SessionPhase::LookingUpPhone => {
            session.known = event == SessionEvent::PhoneLookedUp(true);
            if !session.settings.wired {
                commands.push(Command::SetUsbConnected(false));
            }
            session.go_for_head_unit(&mut commands);
        },
        SessionPhase::AcceptingHeadUnit => {
            if event == SessionEvent::Done {
                session.head_unit = Link::Tcp;
                session.go_on_with_head_unit(&mut commands);
            } else {
                session.give_up(&mut commands);
            }
        },
        SessionPhase::OpeningAccessory => {
            if event == SessionEvent::Done {
                session.head_unit = Link::Usb;
                session.go_on_with_head_unit(&mut commands);
            } else if event == SessionEvent::Busy {
                session.phase = SessionPhase::AwaitingAccessory;
                commands.push(Command::Pause(BUSY_PAUSE_MS));
            } else {
                session.give_up(&mut commands);
            }
        },
        SessionPhase::ConnectingDirectly => {
            if event == SessionEvent::Done {
                session.phone = Link::Tcp;
                commands.push(Command::KeepServerAddress);
                session.go_on_with_both(&mut commands);
            } else {
                session.phase = SessionPhase::PausingAfterDirect;
                commands.push(Command::NotifyRestart(None));
                commands.push(Command::Pause(UNREACHABLE_PAUSE_MS));
            }
        },
        SessionPhase::PausingAfterDirect => {
            session.phase = SessionPhase::Over;
            commands.push(Command::BeginAgain);
        },
        SessionPhase::DuplicatingAccessory => {
            if event == SessionEvent::Done {
                session.start(&mut commands);
            } else {
                session.give_up(&mut commands);
            }
        },
        SessionPhase::Running => {
            session.stop(event == SessionEvent::Ended(true), &mut commands);
            session.part(&mut commands);
            if session.settings.logger {
                session.phase = SessionPhase::StoppingLogger;
                commands.push(Command::StopLogger);
            } else {
                session.close(&mut commands);
            }
        },
        SessionPhase::StoppingLogger => {
            if event == SessionEvent::Done {
                session.close(&mut commands);
            } else {
                session.phase = SessionPhase::Left;
                commands.push(Command::Leave);
            }
        },
        SessionPhase::ReadingAction => {
            let action: Option<Action> = match event {
                SessionEvent::ActionIs(action) => action,
                _ => None,
            };
            session.phase = SessionPhase::Over;
            commands.push(Command::NotifyRestart(action));
            commands.push(Command::SetUsbConnected(false));
            commands.push(Command::BeginAgain);
        },
        _ => {
            session.give_up(&mut commands);
        },
    }
    commands
}

/// Whether these events can happen one after the other.
pub open spec fn session_can_run(s: Session, events: Seq<SessionEvent>) -> bool
    decreases events.len(),
{
    events.len() == 0 || (session_can_run(s, events.drop_last()) && session_after(
        s,
        events.drop_last(),
    ).accepts(events.last()))
}

/// Where a session stands after these events.
pub open spec fn session_after(s: Session, events: Seq<SessionEvent>) -> Session
    decreases events.len(),
{
    if events.len() == 0 {
        s
    } else {
        session_after(s, events.drop_last()).after(events.last()).0
    }
}

/// All that is done in a session up to and after these events.
pub open spec fn commands_of(s: Session, events: Seq<SessionEvent>) -> Seq<Command>
    decreases events.len(),
{
    if events.len() == 0 {
        seq![]
    } else {
        commands_of(s, events.drop_last()) + session_after(s, events.drop_last()).after(
            events.last(),
        ).1
    }
}

/// What holds of every session: which ends are there in which phase.
pub open spec fn sound(s: Session) -> bool {
    &&& s.bridges ==> s.phone == Link::Tcp && !s.settings.direct
    &&& s.known ==> s.bridges
    &&& match s.phase {
        SessionPhase::New => s.phone == Link::Absent && s.head_unit == Link::Absent,
        SessionPhase::AwaitingUsbOrHandshake
        | SessionPhase::AwaitingHandshake
        | SessionPhase::AcceptingPhone => s.phone == Link::Absent && s.head_unit == Link::Absent
            && !s.settings.direct,
        SessionPhase::LookingUpPhone => s.phone == Link::Tcp && s.bridges && s.head_unit
            == Link::Absent,
        SessionPhase::AcceptingHeadUnit
        | SessionPhase::OpeningAccessory
        | SessionPhase::AwaitingAccessory => (s.settings.direct <==> s.phone == Link::Absent)
            && s.head_unit == Link::Absent,
        SessionPhase::ConnectingDirectly | SessionPhase::PausingAfterDirect => s.settings.direct
            && s.phone == Link::Absent && s.head_unit != Link::Absent,
        SessionPhase::DuplicatingAccessory => s.phone != Link::Absent && s.head_unit == Link::Usb,
        SessionPhase::Running | SessionPhase::StoppingLogger | SessionPhase::ReadingAction => s.phone
            != Link::Absent && s.head_unit != Link::Absent,
        SessionPhase::Over | SessionPhase::Left => true,
    }
}

/// The ends that each phase needs are there in every session, whatever happens in it.
pub proof fn law_every_session_is_sound(settings: SessionSettings, events: Seq<SessionEvent>)
    requires
        session_can_run(fresh_session(settings), events),
    ensures
        sound(session_after(fresh_session(settings), events)),
    decreases events.len(),
{
    if events.len() > 0 {
        let before = events.drop_last();
        law_every_session_is_sound(settings, before);
        lemma_step_keeps_sound(session_after(fresh_session(settings), before), events.last());
    }
}

proof fn lemma_step_keeps_sound(s: Session, event: SessionEvent)
    requires
        sound(s),
        s.accepts(event),
    ensures
        sound(s.after(event).0),
{
}

/// Data is carried only with a way to the phone and a way to the head unit; a server is
/// connected to only once the head unit is there; and a session with a server accepts no phone,
/// and so begins no bridges.
pub proof fn law_data_flows_between_two_ends(
    settings: SessionSettings,
    events: Seq<SessionEvent>,
    event: SessionEvent,
    watch_usb: bool,
)
    requires
        session_can_run(fresh_session(settings), events),
        session_after(fresh_session(settings), events).accepts(event),
    ensures
        ({
            let (next, commands) = session_after(fresh_session(settings), events).after(event);
            &&& commands.contains(Command::Run { watch_usb }) ==> next.phone != Link::Absent
                && next.head_unit != Link::Absent && (watch_usb <==> settings.wired && next.phone
                != Link::Usb)
            &&& commands.contains(Command::ConnectDirectly) ==> next.head_unit != Link::Absent
                && next.phone == Link::Absent
            &&& commands.contains(Command::AcceptPhone) ==> !settings.direct
        }),
{
    law_every_session_is_sound(settings, events);
    lemma_settings_stay(settings, events);
    lemma_step_needs(session_after(fresh_session(settings), events), event, watch_usb);
}

/// Whether a command is not for every session at every time.
spec fn is_demanding(c: Command) -> bool {
    c is Run || c is ConnectDirectly || c is AcceptPhone
}

proof fn lemma_cleanup_is_modest(s: Session, failed: bool)
    ensures
        forall|i: int|
            0 <= i < s.cleanup(failed).len() ==> !is_demanding(#[trigger] s.cleanup(failed)[i])
                && !(s.cleanup(failed)[i] is NotifyRestart),
{
    lemma_cleanup_has(s, failed);
    let cleaning = s.cleanup(failed);
    assert forall|i: int| 0 <= i < cleaning.len() implies !is_demanding(#[trigger] cleaning[i])
        && !(cleaning[i] is NotifyRestart) by {
        assert(cleaning.contains(cleaning[i]));
    }
}

proof fn lemma_step_needs(s: Session, event: SessionEvent, watch_usb: bool)
    requires
        sound(s),
        s.accepts(event),
    ensures
        ({
            let (next, commands) = s.after(event);
            &&& commands.contains(Command::Run { watch_usb }) ==> next.phone != Link::Absent
                && next.head_unit != Link::Absent && (watch_usb <==> s.settings.wired && next.phone
                != Link::Usb)
            &&& commands.contains(Command::ConnectDirectly) ==> next.head_unit != Link::Absent
                && next.phone == Link::Absent
            &&& commands.contains(Command::AcceptPhone) ==> !s.settings.direct
        }),
{
    if s.phase == SessionPhase::Running {
        lemma_cleanup_is_modest(s, event == SessionEvent::Ended(true));
    }
}

pub(crate) proof fn lemma_settings_stay(settings: SessionSettings, events: Seq<SessionEvent>)
    ensures
        session_after(fresh_session(settings), events).settings == settings,
    decreases events.len(),
{
    if events.len() > 0 {
        lemma_settings_stay(settings, events.drop_last());
    }
}

#[verifier::rlimit(30)]
pub(crate) proof fn lemma_cleanup_has(s: Session, failed: bool)
    ensures
        forall|c: Command| #[trigger]
            s.cleanup(failed).contains(c) <==> {
                ||| c == Command::ResetUsb && failed && s.phone == Link::Usb
                ||| c == Command::CancelBridges && s.bridges
                ||| c == Command::ClearMediaEndpoints
                ||| c == Command::AbortTasks
                ||| c == Command::ShutDownPhone && s.phone == Link::Tcp
                ||| c == Command::ShutDownHeadUnit && s.head_unit == Link::Tcp
                ||| c == Command::Disassociate && s.known
                ||| c == Command::WithdrawSender
                ||| c == Command::ClearSensorChannel
                ||| c == Command::ClearInputChannel
            },
{
    broadcast use vstd::seq_lib::group_seq_properties;

}

/// When no data is carried any more, whatever the session opened is closed: the bridges, the
/// connections, the tasks, and what others could reach the session by; and nothing else is.
pub proof fn law_end_of_data_closes_what_is_open(s: Session, failed: bool)
    requires
        s.phase == SessionPhase::Running,
    ensures
        ({
            let commands = s.after(SessionEvent::Ended(failed)).1;
            &&& commands.contains(Command::CancelBridges) <==> s.bridges
            &&& commands.contains(Command::ShutDownPhone) <==> s.phone == Link::Tcp
            &&& commands.contains(Command::ShutDownHeadUnit) <==> s.head_unit == Link::Tcp
            &&& commands.contains(Command::ResetUsb) <==> s.phone == Link::Usb && failed
            &&& commands.contains(Command::Disassociate) <==> s.known
            &&& commands.contains(Command::StopLogger) <==> s.settings.logger
            &&& commands.contains(Command::AbortTasks)
            &&& commands.contains(Command::ClearMediaEndpoints)
            &&& commands.contains(Command::WithdrawSender)
            &&& commands.contains(Command::ClearSensorChannel)
            &&& commands.contains(Command::ClearInputChannel)
        }),
{
    lemma_cleanup_has(s, failed);
    lemma_contains_either(s.cleanup(failed), seq![Command::StopLogger]);
    lemma_contains_either(s.cleanup(failed), Session::closing());
    assert(seq![Command::StopLogger][0] == Command::StopLogger);
}

pub(crate) proof fn lemma_contains_either(a: Seq<Command>, b: Seq<Command>)
    ensures
        forall|c: Command| #[trigger] (a + b).contains(c) <==> a.contains(c) || b.contains(c),
{
    assert forall|c: Command| #[trigger] (a + b).contains(c) <==> a.contains(c) || b.contains(
        c,
    ) by {
        if a.contains(c) {
            let i = choose|i: int| 0 <= i < a.len() && a[i] == c;
            assert((a + b)[i] == c);
        }
        if b.contains(c) {
            let i = choose|i: int| 0 <= i < b.len() && b[i] == c;
            assert((a + b)[a.len() + i] == c);
        }
    }
}

/// Whether data was carried.
pub open spec fn carried(commands: Seq<Command>) -> bool {
    commands.contains(Command::Run { watch_usb: false }) || commands.contains(
        Command::Run { watch_usb: true },
    )
}

/// Whether a session that carried data has been cleaned up after.
pub open spec fn cleaned(s: Session, commands: Seq<Command>) -> bool {
    &&& commands.contains(Command::CancelBridges) <==> s.bridges
    &&& commands.contains(Command::ShutDownPhone) <==> s.phone == Link::Tcp
    &&& commands.contains(Command::ShutDownHeadUnit) <==> s.head_unit == Link::Tcp
    &&& commands.contains(Command::ResetUsb) ==> s.phone == Link::Usb
    &&& commands.contains(Command::Disassociate) <==> s.known
    &&& commands.contains(Command::StopLogger) <==> s.settings.logger
    &&& commands.contains(Command::AbortTasks)
    &&& commands.contains(Command::ClearMediaEndpoints)
    &&& commands.contains(Command::WithdrawSender)
    &&& commands.contains(Command::ClearSensorChannel)
    &&& commands.contains(Command::ClearInputChannel)
}

/// Whether a command closes what a session that carries data has opened, bridges aside.
pub open spec fn closes(c: Command) -> bool {
    match c {
        Command::ResetUsb
        | Command::ClearMediaEndpoints
        | Command::AbortTasks
        | Command::ShutDownPhone
        | Command::ShutDownHeadUnit
        | Command::Disassociate
        | Command::WithdrawSender
        | Command::ClearSensorChannel
        | Command::ClearInputChannel
        | Command::StopLogger => true,
        _ => false,
    }
}

/// Whether nothing has been closed.
pub open spec fn nothing_closed(commands: Seq<Command>) -> bool {
    forall|c: Command| #[trigger] commands.contains(c) ==> !closes(c)
}

/// What has been closed where a session stands.
spec fn closed_so_far(s: Session, commands: Seq<Command>) -> bool {
    &&& commands.contains(Command::LookUpPhone) <==> s.bridges
    &&& match s.phase {
        SessionPhase::Running => carried(commands) && nothing_closed(commands)
            && !commands.contains(Command::CancelBridges),
        SessionPhase::StoppingLogger => carried(commands) && cleaned(s, commands)
            && s.settings.logger,
        SessionPhase::ReadingAction => carried(commands) && cleaned(s, commands),
        SessionPhase::Over | SessionPhase::Left => {
            &&& commands.contains(Command::CancelBridges) <==> s.bridges
            &&& carried(commands) ==> cleaned(s, commands)
            &&& !carried(commands) ==> nothing_closed(commands)
        },
        _ => !carried(commands) && nothing_closed(commands) && !commands.contains(
            Command::CancelBridges,
        ),
    }
}

/// Whether the session is given up with this event.
spec fn gives_up(s: Session, event: SessionEvent) -> bool {
    s.after(event).0.phase == SessionPhase::Over && s.phase != SessionPhase::ReadingAction && s.phase
        != SessionPhase::PausingAfterDirect
}

/// Whether a command of a step fits the phase that the step leads to.
spec fn fits(c: Command, s: Session, event: SessionEvent) -> bool {
    &&& !closes(c)
    &&& c == Command::CancelBridges ==> gives_up(s, event) && s.bridges
    &&& c == Command::LookUpPhone ==> s.after(event).0.phase == SessionPhase::LookingUpPhone
    &&& c is Run ==> s.after(event).0.phase == SessionPhase::Running
}

#[verifier::rlimit(40)]
proof fn lemma_quiet_commands(s: Session, event: SessionEvent)
    requires
        s.accepts(event),
        s.phase != SessionPhase::Running,
    ensures
        ({
            let (next, step) = s.after(event);
            &&& forall|i: int| 0 <= i < step.len() ==> fits(#[trigger] step[i], s, event)
            &&& gives_up(s, event) && s.bridges ==> step.len() == 3 && step[1]
                == Command::CancelBridges
            &&& next.phase == SessionPhase::LookingUpPhone ==> step.len() == 1 && step[0]
                == Command::LookUpPhone
            &&& next.phase == SessionPhase::Running ==> step.len() > 0 && step[step.len() - 1] is Run
        }),
{
}

/// What a step before data is carried, or after everything is closed, holds.
proof fn lemma_quiet_step_has(s: Session, event: SessionEvent)
    requires
        s.accepts(event),
        s.phase != SessionPhase::Running,
    ensures
        ({
            let (next, step) = s.after(event);
            &&& nothing_closed(step)
            &&& step.contains(Command::CancelBridges) <==> gives_up(s, event) && s.bridges
            &&& step.contains(Command::LookUpPhone) <==> next.phase == SessionPhase::LookingUpPhone
            &&& carried(step) <==> next.phase == SessionPhase::Running
        }),
{
    lemma_quiet_commands(s, event);
    let (next, step) = s.after(event);
    lemma_members_fit(step, s, event);
    if next.phase == SessionPhase::Running {
        assert(step.contains(step[step.len() - 1]));
    }
}

proof fn lemma_members_fit(step: Seq<Command>, s: Session, event: SessionEvent)
    requires
        forall|i: int| 0 <= i < step.len() ==> fits(#[trigger] step[i], s, event),
    ensures
        forall|c: Command| #[trigger] step.contains(c) ==> fits(c, s, event),
{
}

proof fn lemma_last_step_has(s: Session, failed: bool)
    requires
        s.phase == SessionPhase::Running,
    ensures
        !s.after(SessionEvent::Ended(failed)).1.contains(Command::LookUpPhone),
{
    lemma_cleanup_has(s, failed);
    lemma_contains_either(s.cleanup(failed), seq![Command::StopLogger]);
    lemma_contains_either(s.cleanup(failed), Session::closing());
}

proof fn lemma_step_closes(s: Session, event: SessionEvent, before: Seq<Command>)
    requires
        sound(s),
        s.accepts(event),
        closed_so_far(s, before),
    ensures
        closed_so_far(s.after(event).0, before + s.after(event).1),
{
    lemma_contains_either(before, s.after(event).1);
    if s.phase == SessionPhase::Running {
        law_end_of_data_closes_what_is_open(s, event == SessionEvent::Ended(true));
        lemma_last_step_has(s, event == SessionEvent::Ended(true));
    } else {
        lemma_quiet_step_has(s, event);
    }
}

/// Every session that is over has closed what it opened. Bridges are stopped exactly if they were
/// begun, that is if a phone was accepted and looked up, whether or not data was carried;
/// everything else is closed exactly if data was carried.
pub proof fn law_session_closes_what_it_opened(
    settings: SessionSettings,
    events: Seq<SessionEvent>,
)
    requires
        session_can_run(fresh_session(settings), events),
        ({
            let phase = session_after(fresh_session(settings), events).phase;
            phase == SessionPhase::Over || phase == SessionPhase::Left
        }),
    ensures
        ({
            let s = session_after(fresh_session(settings), events);
            let commands = commands_of(fresh_session(settings), events);
            &&& commands.contains(Command::CancelBridges) <==> s.bridges
            &&& commands.contains(Command::LookUpPhone) <==> s.bridges
            &&& carried(commands) ==> cleaned(s, commands)
            &&& !carried(commands) ==> nothing_closed(commands)
        }),
{
    lemma_closed_so_far(settings, events);
}

proof fn lemma_closed_so_far(settings: SessionSettings, events: Seq<SessionEvent>)
    requires
        session_can_run(fresh_session(settings), events),
    ensures
        closed_so_far(
            session_after(fresh_session(settings), events),
            commands_of(fresh_session(settings), events),
        ),
    decreases events.len(),
{
    if events.len() > 0 {
        let before = events.drop_last();
        let s = fresh_session(settings);
        lemma_closed_so_far(settings, before);
        law_every_session_is_sound(settings, before);
        lemma_step_closes(session_after(s, before), events.last(), commands_of(s, before));
    }
}

/// How often the rest of the program is told that the session is over.
pub open spec fn notifications(commands: Seq<Command>) -> nat {
    commands.filter(|c: Command| c is NotifyRestart).len()
}

/// Whether the rest of the program has been told that the session is over.
pub open spec fn told(phase: SessionPhase) -> bool {
    phase == SessionPhase::Over || phase == SessionPhase::PausingAfterDirect
}

proof fn lemma_notifications_add(a: Seq<Command>, b: Seq<Command>)
    ensures
        notifications(a + b) == notifications(a) + notifications(b),
{
    Seq::<Command>::filter_distributes_over_add(a, b, |c: Command| c is NotifyRestart);
}

proof fn lemma_few_notifications(commands: Seq<Command>)
    ensures
        commands.len() == 0 ==> notifications(commands) == 0,
        commands.len() == 1 ==> notifications(commands) == (if commands[0] is NotifyRestart {
            1nat
        } else {
            0
        }),
{
    reveal_with_fuel(Seq::filter, 3);
}

proof fn lemma_no_notifications(commands: Seq<Command>)
    requires
        forall|i: int| 0 <= i < commands.len() ==> !(#[trigger] commands[i] is NotifyRestart),
    ensures
        notifications(commands) == 0,
    decreases commands.len(),
{
    reveal_with_fuel(Seq::filter, 2);
    if commands.len() > 0 {
        lemma_no_notifications(commands.drop_last());
    }
}

proof fn lemma_step_notifies(s: Session, event: SessionEvent)
    requires
        s.accepts(event),
    ensures
        notifications(s.after(event).1) == (if told(s.after(event).0.phase) && !told(s.phase) {
            1nat
        } else {
            0
        }),
{
    let (next, commands) = s.after(event);
    if told(next.phase) && !told(s.phase) {
        let rest = commands.skip(1);
        assert(commands =~= seq![commands[0]] + rest);
        lemma_notifications_add(seq![commands[0]], rest);
        lemma_few_notifications(seq![commands[0]]);
        lemma_no_notifications(rest);
    } else {
        if s.phase == SessionPhase::Running {
            lemma_cleanup_is_modest(s, event == SessionEvent::Ended(true));
        }
        lemma_no_notifications(commands);
    }
}

/// Every session that is followed by another has told the rest of the program exactly once that
/// it is over, and a session that still goes on has not.
pub proof fn law_restart_is_announced_once(settings: SessionSettings, events: Seq<SessionEvent>)
    requires
        session_can_run(fresh_session(settings), events),
    ensures
        notifications(commands_of(fresh_session(settings), events)) == (if told(
            session_after(fresh_session(settings), events).phase,
        ) {
            1nat
        } else {
            0
        }),
    decreases events.len(),
{
    let s = fresh_session(settings);
    if events.len() == 0 {
        lemma_few_notifications(seq![]);
    } else {
        let before = events.drop_last();
        law_restart_is_announced_once(settings, before);
        lemma_step_notifies(session_after(s, before), events.last());
        lemma_notifications_add(
            commands_of(s, before),
            session_after(s, before).after(events.last()).1,
        );
    }
}

/// How many more things can happen in a session, at most.
pub open spec fn session_events_left(phase: SessionPhase) -> int {
    match phase {
        SessionPhase::New => 10,
        SessionPhase::AwaitingUsbOrHandshake | SessionPhase::AwaitingHandshake => 9,
        SessionPhase::AcceptingPhone => 8,
        SessionPhase::LookingUpPhone => 7,
        SessionPhase::AcceptingHeadUnit | SessionPhase::OpeningAccessory => 6,
        SessionPhase::ConnectingDirectly => 5,
        SessionPhase::DuplicatingAccessory => 4,
        SessionPhase::Running => 3,
        SessionPhase::StoppingLogger => 2,
        SessionPhase::ReadingAction
        | SessionPhase::AwaitingAccessory
        | SessionPhase::PausingAfterDirect => 1,
        SessionPhase::Over | SessionPhase::Left => 0,
    }
}

/// A session does not go round in circles: it is over after a handful of events.
pub proof fn law_session_is_bounded(settings: SessionSettings, events: Seq<SessionEvent>)
    requires
        session_can_run(fresh_session(settings), events),
    ensures
        events.len() + session_events_left(
            session_after(fresh_session(settings), events).phase,
        ) <= 10,
    decreases events.len(),
{
    if events.len() > 0 {
        let before = events.drop_last();
        law_session_is_bounded(settings, before);
        lemma_step_brings_the_end_nearer(session_after(fresh_session(settings), before), events.last());
    }
}

proof fn lemma_step_brings_the_end_nearer(s: Session, event: SessionEvent)
    requires
        s.accepts(event),
    ensures
        session_events_left(s.after(event).0.phase) < session_events_left(s.phase),
{
}

/// Whether others can send packets into the session after these commands.
pub open spec fn sender_is_out(commands: Seq<Command>) -> bool
    decreases commands.len(),
{
    commands.len() > 0 && match commands.last() {
        Command::PublishSender => true,
        Command::WithdrawSender => false,
        _ => sender_is_out(commands.drop_last()),
    }
}

proof fn lemma_sender_withdrawn(before: Seq<Command>, step: Seq<Command>, i: int)
    requires
        0 <= i < step.len(),
        step[i] == Command::WithdrawSender,
        forall|j: int| i < j < step.len() ==> #[trigger] step[j] != Command::PublishSender,
    ensures
        !sender_is_out(before + step),
    decreases step.len(),
{
    let all = before + step;
    if i < step.len() - 1 {
        assert(all.drop_last() =~= before + step.drop_last());
        lemma_sender_withdrawn(before, step.drop_last(), i);
    }
}

proof fn lemma_sender_untouched(before: Seq<Command>, step: Seq<Command>)
    requires
        forall|j: int| 0 <= j < step.len() ==> #[trigger] step[j] != Command::PublishSender && step[j]
            != Command::WithdrawSender,
    ensures
        sender_is_out(before + step) == sender_is_out(before),
    decreases step.len(),
{
    if step.len() > 0 {
        assert((before + step).drop_last() =~= before + step.drop_last());
        lemma_sender_untouched(before, step.drop_last());
    }
}

/// Others can send packets into a session only while it carries data.
pub proof fn law_sender_is_out_only_while_data_flows(
    settings: SessionSettings,
    events: Seq<SessionEvent>,
)
    requires
        session_can_run(fresh_session(settings), events),
        session_after(fresh_session(settings), events).phase != SessionPhase::Running,
    ensures
        !sender_is_out(commands_of(fresh_session(settings), events)),
    decreases events.len(),
{
    let s = fresh_session(settings);
    if events.len() > 0 {
        let before = events.drop_last();
        let here = session_after(s, before);
        if here.phase != SessionPhase::Running {
            law_sender_is_out_only_while_data_flows(settings, before);
        }
        lemma_step_and_sender(commands_of(s, before), here, events.last());
    }
}

proof fn lemma_cleanup_withdraws(s: Session, failed: bool, before: Seq<Command>, rest: Seq<Command>)
    requires
        forall|j: int| 0 <= j < rest.len() ==> #[trigger] rest[j] != Command::PublishSender,
    ensures
        !sender_is_out(before + (s.cleanup(failed) + rest)),
{
    let cleaning = s.cleanup(failed);
    let step = cleaning + rest;
    let i = cleaning.len() - 3;
    assert(cleaning[i] == Command::WithdrawSender);
    assert(cleaning[i + 1] == Command::ClearSensorChannel);
    assert(cleaning[i + 2] == Command::ClearInputChannel);
    assert forall|j: int| i < j < step.len() implies #[trigger] step[j] != Command::PublishSender by {
        if j >= cleaning.len() {
            assert(step[j] == rest[j - cleaning.len()]);
        }
    }
    lemma_sender_withdrawn(before, step, i);
}

proof fn lemma_step_and_sender(before: Seq<Command>, here: Session, event: SessionEvent)
    requires
        here.accepts(event),
        here.phase != SessionPhase::Running ==> !sender_is_out(before),
        here.after(event).0.phase != SessionPhase::Running,
    ensures
        !sender_is_out(before + here.after(event).1),
{
    if here.phase == SessionPhase::Running {
        let failed = event == SessionEvent::Ended(true);
        lemma_cleanup_withdraws(here, failed, before, seq![Command::StopLogger]);
        lemma_cleanup_withdraws(here, failed, before, Session::closing());
    } else {
        lemma_sender_untouched(before, here.after(event).1);
    }
}

/// Reports are made exactly if the configured interval is not zero, and then so many seconds apart.
pub proof fn law_interval_zero_means_no_reports(config: AppConfig, r: Option<u64>)
    requires
        call_ensures(stats_interval, (&config,), r),
    ensures
        r is None <==> config.stats_interval == 0,
        r matches Some(secs) ==> secs == config.stats_interval,
{
}

/// A transfer counts as stalled after as many seconds as are configured.
pub proof fn law_stall_is_configured(config: AppConfig, secs: u64)
    requires
        call_ensures(read_timeout, (&config,), secs),
    ensures
        secs == config.timeout_secs,
{
}

/// Media streams are offered exactly if ports for them are configured and packets are looked into,
/// and ports that cannot be offered are never passed over in silence.
pub proof fn law_media_needs_packets(config: AppConfig, taps: MediaTaps)
    requires
        call_ensures(media_taps, (&config,), taps),
    ensures
        taps.base_port is Some <==> config.mitm && config.media_dump_base_port is Some,
        taps.base_port is Some ==> taps.base_port == config.media_dump_base_port,
        config.media_dump_base_port is Some <==> taps.base_port is Some || taps.disabled,
        !(taps.base_port is Some && taps.disabled),
{
}

/// A task has succeeded exactly if it returned success, and its value and its error are passed on.
pub proof fn law_lost_task_has_failed<T>(joined: Joined<T>, r: Result<T, String>)
    requires
        call_ensures(flatten::<T>, (joined,), r),
    ensures
        r is Ok <==> (joined matches Joined::Returned(result) && result is Ok),
        joined matches Joined::Returned(result) ==> r == result,
        joined is Lost ==> (r matches Err(e) && e@ == "handling failed"@),
{
}

/// A session goes by the configuration, and by a server exactly if there is anything but white space
/// in its address.
pub proof fn law_session_goes_by_the_configuration(
    config: AppConfig,
    address: &str,
    s: SessionSettings,
)
    requires
        call_ensures(session_settings, (&config, address), s),
    ensures
        s.direct <==> exists|i: int| 0 <= i < address@.len() && !white_space(#[trigger] address@[i]),
        s.wired <==> config.wired is Some,
        s.dhu <==> config.dhu,
        s.mitm <==> config.mitm,
        s.logger <==> config.ev_battery_logger is Some,
{
    law_nothing_is_left_of_white_space(address@);
}

/// A new session is one at its beginning.
pub proof fn law_new_session_begins(settings: SessionSettings, s: Session)
    requires
        call_ensures(Session::new, (settings,), s),
    ensures
        s.settings == settings,
        s.phase == SessionPhase::New,
        s.phone == Link::Absent,
        s.head_unit == Link::Absent,
        !s.bridges,
        !s.known,
{
}

} // verus!

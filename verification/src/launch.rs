//! The course of a handshake over Bluetooth: what is done in which order, from powering the
//! adapter to telling the proxy that the phone is about to connect, and what keeps the
//! connection alive afterwards.

use vstd::prelude::*;
use crate::bluetooth::Bluetooth;
use crate::config::Action;

verus! {

/// How long the Bluetooth daemon is given after the headset profile is dropped, in milliseconds.
pub const UNREGISTER_PAUSE_MS: u64 = 300;

/// How long one read of leftover data may take before the connection is closed, in milliseconds.
pub const DRAIN_TIMEOUT_MS: u64 = 50;

/// How long a phone is given to finish its frames before it is disconnected, in milliseconds.
pub const FINISH_PAUSE_MS: u64 = 150;

/// How long the controller is given to finish its frames, in milliseconds.
pub const SETTLE_PAUSE_MS: u64 = 500;

/// Where a handshake stands.
#[derive(Debug, Clone, Copy, PartialEq, Eq, Structural)]
pub enum LaunchPhase {
    New,
    PoweringOn,
    Registering,
    Connecting,
    Exchanging,
    ClearingStop,
    Notifying,
    KeepingAlive,
    ShuttingDown,
    Pausing,
    Disconnecting,
    Unregistering,
    PoweringOff,
    Over,
}

/// A handshake.
#[derive(Debug, Clone, Copy, PartialEq, Eq, Structural)]
pub struct Launch {
    /// Whether the adapter is powered only while it is needed.
    pub bt_poweroff: bool,
    /// Whether the user had stopped the proxy.
    pub stopped: bool,
    /// Whether the connection is kept for another handshake.
    pub quick_reconnect: bool,
    /// Whether the headset profile is registered.
    pub headset: bool,
    /// Where the handshake stands.
    pub phase: LaunchPhase,
}

/// What happened to what a handshake asked for.
#[derive(Debug, Clone, Copy, PartialEq, Eq, Structural)]
pub enum LaunchEvent {
    /// The handshake begins.
    Begin,
    /// It is done.
    Done,
    /// It failed.
    Failed,
    /// The daemon is there, and it refused the headset profile.
    NotRegistered,
}

/// What a handshake asks for next.
#[derive(Debug, Clone, Copy, PartialEq, Eq, Structural)]
pub enum LaunchStep {
    /// Power the adapter. It is done whatever comes of it.
    PowerOn,
    /// Register the headset profile.
    RegisterHeadset,
    /// Get a phone connected.
    Connect,
    /// Tell the phone how to reach the proxy.
    SendParams,
    /// Forget that the user stopped the proxy.
    ClearStop,
    /// Tell the proxy that the phone is about to connect.
    NotifyTcp,
    /// Hand the connection, and the headset profile with it, to a task that keeps it.
    KeepAlive,
    /// Shut the connection down. It is done whatever comes of it.
    Shutdown,
    /// Give the phone time to finish its frames.
    Pause,
    /// Look the device up, which can fail, and disconnect it, whatever comes of that.
    Disconnect,
    /// Drop the headset profile.
    UnregisterHeadset,
    /// Power the adapter down. It is done whatever comes of it.
    PowerOff,
    /// The handshake is over.
    Finished,
    /// The handshake is over: something failed.
    Failed,
}

impl Launch {
    /// Whether `event` can happen here.
    pub open spec fn accepts(&self, event: LaunchEvent) -> bool {
        match self.phase {
            LaunchPhase::New => event == LaunchEvent::Begin,
            LaunchPhase::Registering => event == LaunchEvent::Done || event == LaunchEvent::Failed
                || event == LaunchEvent::NotRegistered,
            LaunchPhase::Connecting | LaunchPhase::Exchanging | LaunchPhase::Disconnecting => event
                == LaunchEvent::Done || event == LaunchEvent::Failed,
            LaunchPhase::Over => false,
            _ => event == LaunchEvent::Done,
        }
    }

    /// This handshake, standing elsewhere.
    pub open spec fn at(&self, phase: LaunchPhase) -> Launch {
        Launch {
            bt_poweroff: self.bt_poweroff,
            stopped: self.stopped,
            quick_reconnect: self.quick_reconnect,
            headset: self.headset,
            phase,
        }
    }

    /// This handshake, with the headset profile registered or not.
    pub open spec fn with_headset(&self, headset: bool) -> Launch {
        Launch {
            bt_poweroff: self.bt_poweroff,
            stopped: self.stopped,
            quick_reconnect: self.quick_reconnect,
            headset,
            phase: self.phase,
        }
    }

    /// What follows when the adapter is powered.
    pub open spec fn powered(&self, dongle_mode: bool) -> (Launch, LaunchStep) {
        if dongle_mode {
            (self.at(LaunchPhase::Connecting), LaunchStep::Connect)
        } else {
            (self.at(LaunchPhase::Registering), LaunchStep::RegisterHeadset)
        }
    }

    /// What follows when no profile is left to drop.
    pub open spec fn wound_up(&self) -> (Launch, LaunchStep) {
        if self.bt_poweroff {
            (self.at(LaunchPhase::PoweringOff), LaunchStep::PowerOff)
        } else {
            (self.at(LaunchPhase::Over), LaunchStep::Finished)
        }
    }

    /// What follows an event.
    pub open spec fn after(&self, dongle_mode: bool, event: LaunchEvent) -> (Launch, LaunchStep) {
        if event == LaunchEvent::Failed {
            (self.at(LaunchPhase::Over), LaunchStep::Failed)
        } else {
            match self.phase {
                LaunchPhase::New => if self.bt_poweroff {
                    (self.at(LaunchPhase::PoweringOn), LaunchStep::PowerOn)
                } else {
                    self.powered(dongle_mode)
                },
                LaunchPhase::PoweringOn => self.powered(dongle_mode),
                LaunchPhase::Registering => (
                    self.with_headset(event == LaunchEvent::Done).at(LaunchPhase::Connecting),
                    LaunchStep::Connect,
                ),
                LaunchPhase::Connecting => (self.at(LaunchPhase::Exchanging), LaunchStep::SendParams),
                LaunchPhase::Exchanging => if self.stopped {
                    (self.at(LaunchPhase::ClearingStop), LaunchStep::ClearStop)
                } else {
                    (self.at(LaunchPhase::Notifying), LaunchStep::NotifyTcp)
                },
                LaunchPhase::ClearingStop => (self.at(LaunchPhase::Notifying), LaunchStep::NotifyTcp),
                LaunchPhase::Notifying => if self.quick_reconnect {
                    (self.at(LaunchPhase::KeepingAlive), LaunchStep::KeepAlive)
                } else {
                    (self.at(LaunchPhase::ShuttingDown), LaunchStep::Shutdown)
                },
                LaunchPhase::ShuttingDown => (self.at(LaunchPhase::Pausing), LaunchStep::Pause),
                LaunchPhase::Pausing => (
                    self.at(LaunchPhase::Disconnecting),
                    LaunchStep::Disconnect,
                ),
                LaunchPhase::Disconnecting => if self.headset && !dongle_mode {
                    (self.at(LaunchPhase::Unregistering), LaunchStep::UnregisterHeadset)
                } else {
                    self.wound_up()
                },
                LaunchPhase::Unregistering => self.with_headset(false).wound_up(),
                LaunchPhase::KeepingAlive | LaunchPhase::PoweringOff | LaunchPhase::Over => (
                    self.at(LaunchPhase::Over),
                    LaunchStep::Finished,
                ),
            }
        }
    }

    /// When the proxy began to wait after it was stopped, once it is known what happened here.
    pub open spec fn stop_time_after(self, stopped_at: Option<u128>) -> Option<u128> {
        if self.phase == LaunchPhase::ClearingStop {
            None
        } else {
            stopped_at
        }
    }

    /// A handshake that has not begun.
    pub fn new(bt_poweroff: bool, stopped: bool, quick_reconnect: bool) -> (l: Launch)
        ensures
            l == (Launch {
                bt_poweroff,
                stopped,
                quick_reconnect,
                headset: false,
                phase: LaunchPhase::New,
            }),
    {
        Launch { bt_poweroff, stopped, quick_reconnect, headset: false, phase: LaunchPhase::New }
    }
}

impl Bluetooth {
    /// Takes what happened and says what to do next. When the stop is cleared, the time of the
    /// wait that followed it is forgotten; nothing else that the proxy keeps in mind changes.
    pub fn aa_handshake(&mut self, launch: &mut Launch, event: LaunchEvent) -> (step: LaunchStep)
        requires
            old(launch).accepts(event),
        ensures
            (*final(launch), step) == old(launch).after(old(self).dongle_mode, event),
            final(self).stopped_at == if old(launch).phase == LaunchPhase::ClearingStop {
                None
            } else {
                old(self).stopped_at
            },
            final(self).stopped_at == old(launch).stop_time_after(old(self).stopped_at),
            final(self).current_index == old(self).current_index,
            final(self).dongle_mode == old(self).dongle_mode,
            final(self).page_timeout_devices == old(self).page_timeout_devices,
            final(self).last_connected == old(self).last_connected,
    {
        let dongle: bool = self.dongle_mode;
        let from: LaunchPhase = launch.phase;
        if from == LaunchPhase::ClearingStop {
            self.stopped_at = None;
        }
        if event == LaunchEvent::Failed {
            launch.phase = LaunchPhase::Over;
            return LaunchStep::Failed;
        }
        if from == LaunchPhase::Registering {
            launch.headset = event == LaunchEvent::Done;
        } else if from == LaunchPhase::Unregistering {
            launch.headset = false;
        }
        let (phase, step): (LaunchPhase, LaunchStep) = match from {
            LaunchPhase::New if launch.bt_poweroff => (LaunchPhase::PoweringOn, LaunchStep::PowerOn),
            LaunchPhase::New | LaunchPhase::PoweringOn => if dongle {
                (LaunchPhase::Connecting, LaunchStep::Connect)
            } else {
                (LaunchPhase::Registering, LaunchStep::RegisterHeadset)
            },
            LaunchPhase::Registering => (LaunchPhase::Connecting, LaunchStep::Connect),
            LaunchPhase::Connecting => (LaunchPhase::Exchanging, LaunchStep::SendParams),
            LaunchPhase::Exchanging if launch.stopped => (
                LaunchPhase::ClearingStop,
                LaunchStep::ClearStop,
            ),
            LaunchPhase::Exchanging | LaunchPhase::ClearingStop => (
                LaunchPhase::Notifying,
                LaunchStep::NotifyTcp,
            ),
            LaunchPhase::Notifying => if launch.quick_reconnect {
                (LaunchPhase::KeepingAlive, LaunchStep::KeepAlive)
            } else {
                (LaunchPhase::ShuttingDown, LaunchStep::Shutdown)
            },
            LaunchPhase::ShuttingDown => (LaunchPhase::Pausing, LaunchStep::Pause),
            LaunchPhase::Pausing => (LaunchPhase::Disconnecting, LaunchStep::Disconnect),
            LaunchPhase::Disconnecting if launch.headset && !dongle => (
                LaunchPhase::Unregistering,
                LaunchStep::UnregisterHeadset,
            ),
            LaunchPhase::Disconnecting | LaunchPhase::Unregistering => if launch.bt_poweroff {
                (LaunchPhase::PoweringOff, LaunchStep::PowerOff)
            } else {
                (LaunchPhase::Over, LaunchStep::Finished)
            },
            _ => (LaunchPhase::Over, LaunchStep::Finished),
        };
        launch.phase = phase;
        step
    }
}

/// The stop is cleared at the last possible moment: after the phone has learned how to reach
/// the proxy, and before the proxy is told that the phone is about to connect.
pub proof fn law_stop_is_cleared_at_the_last_moment(
    launch: Launch,
    dongle_mode: bool,
    event: LaunchEvent,
)
    requires
        launch.accepts(event),
    ensures
        ({
            let (next, step) = launch.after(dongle_mode, event);
            let learned = launch.phase == LaunchPhase::Exchanging && event == LaunchEvent::Done;
            &&& step == LaunchStep::ClearStop <==> learned && launch.stopped
            &&& step == LaunchStep::NotifyTcp <==> (learned && !launch.stopped) || launch.phase
                == LaunchPhase::ClearingStop
            &&& step == LaunchStep::ClearStop ==> next.phase == LaunchPhase::ClearingStop
        }),
{
}

/// What always holds of a handshake that began as `Launch::new` says: in dongle mode the
/// headset profile is never registered, and otherwise not before it is asked for.
pub open spec fn launch_consistent(launch: Launch, dongle_mode: bool) -> bool {
    &&& launch.headset ==> !dongle_mode
    &&& launch.phase == LaunchPhase::New || launch.phase == LaunchPhase::PoweringOn || launch.phase
        == LaunchPhase::Registering || launch.phase == LaunchPhase::PoweringOff ==> !launch.headset
    &&& launch.phase == LaunchPhase::Registering ==> !dongle_mode
    &&& launch.phase == LaunchPhase::KeepingAlive ==> launch.quick_reconnect
    &&& launch.phase == LaunchPhase::ShuttingDown || launch.phase == LaunchPhase::Pausing
        || launch.phase == LaunchPhase::Disconnecting || launch.phase == LaunchPhase::Unregistering
        || launch.phase == LaunchPhase::PoweringOff ==> !launch.quick_reconnect
}

/// A handshake that finishes has dropped the headset profile, unless it keeps the connection;
/// and has powered the adapter down if that was asked for, unless it keeps the connection.
pub proof fn law_finished_handshake_has_cleaned_up(
    launch: Launch,
    dongle_mode: bool,
    event: LaunchEvent,
)
    requires
        launch_consistent(launch, dongle_mode),
        launch.accepts(event),
    ensures
        ({
            let (next, step) = launch.after(dongle_mode, event);
            &&& launch_consistent(next, dongle_mode)
            &&& step == LaunchStep::Finished && !next.quick_reconnect ==> {
                &&& !next.headset
                &&& next.bt_poweroff ==> launch.phase == LaunchPhase::PoweringOff
            }
        }),
{
}

/// How many events a handshake can still take.
pub open spec fn launch_events_left(phase: LaunchPhase) -> nat {
    match phase {
        LaunchPhase::New => 12,
        LaunchPhase::PoweringOn => 11,
        LaunchPhase::Registering => 10,
        LaunchPhase::Connecting => 9,
        LaunchPhase::Exchanging => 8,
        LaunchPhase::ClearingStop => 7,
        LaunchPhase::Notifying => 6,
        LaunchPhase::KeepingAlive => 1,
        LaunchPhase::ShuttingDown => 5,
        LaunchPhase::Pausing => 4,
        LaunchPhase::Disconnecting => 3,
        LaunchPhase::Unregistering => 2,
        LaunchPhase::PoweringOff => 1,
        LaunchPhase::Over => 0,
    }
}

/// A handshake comes to an end: every event brings it nearer to its end, and it is over
/// exactly when it says that it finished or failed.
pub proof fn law_handshake_ends(launch: Launch, dongle_mode: bool, event: LaunchEvent)
    requires
        launch.accepts(event),
    ensures
        ({
            let (next, step) = launch.after(dongle_mode, event);
            &&& launch_events_left(next.phase) < launch_events_left(launch.phase)
            &&& next.phase == LaunchPhase::Over <==> step == LaunchStep::Finished || step
                == LaunchStep::Failed
        }),
{
}

/// Where the task that keeps a connection stands.
#[derive(Debug, Clone, Copy, PartialEq, Eq, Structural)]
pub enum KeeperPhase {
    New,
    Marking,
    Waiting,
    Resending,
    Notifying,
    ShuttingDown,
    Draining,
    Settling,
    Disconnecting,
    Leaving,
    Unregistering,
    Reporting,
    Over,
}

/// What happened to what the task asked for.
#[derive(Debug, Clone, Copy, PartialEq, Eq, Structural)]
pub enum KeeperEvent {
    /// The task begins.
    Begin,
    /// The proxy asks for another handshake, with this action if there is one. A request that
    /// got lost counts as one without an action.
    Restart(Option<Action>),
    /// It is done, or it failed where that does not matter.
    Done,
    /// It failed.
    Failed,
    /// So many bytes of leftover data were read.
    Read(usize),
    /// No leftover data came in time, or reading it failed.
    NothingRead,
}

/// What the task asks for next.
#[derive(Debug, Clone, Copy, PartialEq, Eq, Structural)]
pub enum KeeperStep {
    /// Make known whether a connection is kept.
    SetConnected(bool),
    /// Wait for the proxy to ask for another handshake.
    AwaitRestart,
    /// Tell the phone how to reach the proxy.
    SendParams,
    /// Tell the proxy that the phone is about to connect.
    NotifyTcp,
    /// Shut the connection down.
    Shutdown,
    /// Read leftover data, for a short time.
    Drain,
    /// Give the controller time to finish its frames.
    Settle,
    /// Disconnect the device.
    Disconnect,
    /// Drop the headset profile.
    UnregisterHeadset,
    /// Tell the main loop to begin anew.
    NotifyMain,
    /// The task is over.
    Finished,
}

/// Whether `event` can happen in `phase`.
pub open spec fn keeper_accepts(phase: KeeperPhase, event: KeeperEvent) -> bool {
    match phase {
        KeeperPhase::New => event == KeeperEvent::Begin,
        KeeperPhase::Waiting => event is Restart,
        KeeperPhase::Resending => event == KeeperEvent::Done || event == KeeperEvent::Failed,
        KeeperPhase::Draining => event is Read || event == KeeperEvent::NothingRead,
        KeeperPhase::Over => false,
        _ => event == KeeperEvent::Done,
    }
}

/// What follows an event; `headset` says whether the task holds the headset profile.
pub open spec fn keeper_after(phase: KeeperPhase, headset: bool, event: KeeperEvent) -> (
    KeeperPhase,
    KeeperStep,
) {
    match (phase, event) {
        (KeeperPhase::New, _) => (KeeperPhase::Marking, KeeperStep::SetConnected(true)),
        (KeeperPhase::Waiting, KeeperEvent::Restart(Some(Action::Stop))) => (
            KeeperPhase::ShuttingDown,
            KeeperStep::Shutdown,
        ),
        (KeeperPhase::Waiting, _) => (KeeperPhase::Resending, KeeperStep::SendParams),
        (KeeperPhase::Marking, _) | (KeeperPhase::Notifying, _) => (
            KeeperPhase::Waiting,
            KeeperStep::AwaitRestart,
        ),
        (KeeperPhase::Resending, KeeperEvent::Done) => (
            KeeperPhase::Notifying,
            KeeperStep::NotifyTcp,
        ),
        (KeeperPhase::Resending, _) | (KeeperPhase::Disconnecting, _) => (
            KeeperPhase::Leaving,
            KeeperStep::SetConnected(false),
        ),
        (KeeperPhase::ShuttingDown, _) => (KeeperPhase::Draining, KeeperStep::Drain),
        (KeeperPhase::Draining, KeeperEvent::Read(n)) if n > 0 => (
            KeeperPhase::Draining,
            KeeperStep::Drain,
        ),
        (KeeperPhase::Draining, _) => (KeeperPhase::Settling, KeeperStep::Settle),
        (KeeperPhase::Settling, _) => (KeeperPhase::Disconnecting, KeeperStep::Disconnect),
        (KeeperPhase::Leaving, _) if headset => (
            KeeperPhase::Unregistering,
            KeeperStep::UnregisterHeadset,
        ),
        (KeeperPhase::Leaving, _) | (KeeperPhase::Unregistering, _) => (
            KeeperPhase::Reporting,
            KeeperStep::NotifyMain,
        ),
        (KeeperPhase::Reporting, _) | (KeeperPhase::Over, _) => (
            KeeperPhase::Over,
            KeeperStep::Finished,
        ),
    }
}

/// Takes what happened and says what the task that keeps a connection does next.
pub fn keep_connection(
    phase: &mut KeeperPhase,
    headset: bool,
    event: KeeperEvent,
) -> (step: KeeperStep)
    requires
        keeper_accepts(*old(phase), event),
    ensures
        (*final(phase), step) == keeper_after(*old(phase), headset, event),
{
    let (next, step): (KeeperPhase, KeeperStep) = match *phase {
        KeeperPhase::New => (KeeperPhase::Marking, KeeperStep::SetConnected(true)),
        KeeperPhase::Marking => (KeeperPhase::Waiting, KeeperStep::AwaitRestart),
        KeeperPhase::Waiting => match event {
            KeeperEvent::Restart(Some(Action::Stop)) => (
                KeeperPhase::ShuttingDown,
                KeeperStep::Shutdown,
            ),
            _ => (KeeperPhase::Resending, KeeperStep::SendParams),
        },
        KeeperPhase::Notifying => (KeeperPhase::Waiting, KeeperStep::AwaitRestart),
        KeeperPhase::Resending => if event == KeeperEvent::Done {
            (KeeperPhase::Notifying, KeeperStep::NotifyTcp)
        } else {
            (KeeperPhase::Leaving, KeeperStep::SetConnected(false))
        },
        KeeperPhase::ShuttingDown => (KeeperPhase::Draining, KeeperStep::Drain),
        KeeperPhase::Draining => match event {
            KeeperEvent::Read(n) if n > 0 => (KeeperPhase::Draining, KeeperStep::Drain),
            _ => (KeeperPhase::Settling, KeeperStep::Settle),
        },
        KeeperPhase::Settling => (KeeperPhase::Disconnecting, KeeperStep::Disconnect),
        KeeperPhase::Disconnecting => (KeeperPhase::Leaving, KeeperStep::SetConnected(false)),
        KeeperPhase::Leaving => if headset {
            (KeeperPhase::Unregistering, KeeperStep::UnregisterHeadset)
        } else {
            (KeeperPhase::Reporting, KeeperStep::NotifyMain)
        },
        KeeperPhase::Unregistering => (KeeperPhase::Reporting, KeeperStep::NotifyMain),
        KeeperPhase::Reporting | KeeperPhase::Over => (KeeperPhase::Over, KeeperStep::Finished),
    };
    *phase = next;
    step
}

/// A request with the action to stop closes the connection, and any other request repeats the
/// exchange with the phone; the proxy is told that the phone is about to connect only when
/// that exchange succeeds.
pub proof fn law_only_a_stop_closes_the_connection(headset: bool, action: Option<Action>)
    ensures
        keeper_after(KeeperPhase::Waiting, headset, KeeperEvent::Restart(action)).1 == if action == Some(
            Action::Stop,
        ) {
            KeeperStep::Shutdown
        } else {
            KeeperStep::SendParams
        },
        keeper_after(KeeperPhase::Resending, headset, KeeperEvent::Done).1 == KeeperStep::NotifyTcp,
        keeper_after(KeeperPhase::Resending, headset, KeeperEvent::Failed).1
            == KeeperStep::SetConnected(false),
{
}

/// Whether the task is on its way out, and so no longer keeps a connection.
pub open spec fn keeper_leaves(phase: KeeperPhase) -> bool {
    phase == KeeperPhase::Leaving || phase == KeeperPhase::Unregistering || phase
        == KeeperPhase::Reporting || phase == KeeperPhase::Over
}

/// On its way out the task first makes known that no connection is kept, then drops the headset
/// profile if it holds it, then tells the main loop to begin anew, and is over. It never turns
/// back.
pub proof fn law_keeper_leaves_in_order(phase: KeeperPhase, headset: bool, event: KeeperEvent)
    requires
        keeper_accepts(phase, event),
    ensures
        ({
            let (next, step) = keeper_after(phase, headset, event);
            &&& keeper_leaves(phase) ==> keeper_leaves(next)
            &&& !keeper_leaves(phase) && keeper_leaves(next) <==> step == KeeperStep::SetConnected(false)
            &&& step == KeeperStep::UnregisterHeadset <==> phase == KeeperPhase::Leaving && headset
            &&& step == KeeperStep::NotifyMain <==> phase == KeeperPhase::Unregistering || (phase
                == KeeperPhase::Leaving && !headset)
            &&& step == KeeperStep::Finished <==> phase == KeeperPhase::Reporting
        }),
{
}

/// When each step before the phone is reached is asked for: power first, if the adapter is powered
/// down between handshakes; then the headset profile, except in dongle mode; then the phone,
/// whether or not the daemon took the profile; then the exchange with it.
pub proof fn law_steps_up_to_the_exchange(launch: Launch, dongle_mode: bool, event: LaunchEvent)
    requires
        launch.accepts(event),
    ensures
        ({
            let step = launch.after(dongle_mode, event).1;
            let powered = (launch.phase == LaunchPhase::New && !launch.bt_poweroff) || launch.phase
                == LaunchPhase::PoweringOn;
            &&& step == LaunchStep::PowerOn <==> launch.phase == LaunchPhase::New
                && launch.bt_poweroff
            &&& step == LaunchStep::RegisterHeadset <==> powered && !dongle_mode
            &&& step == LaunchStep::Connect <==> (powered && dongle_mode) || (launch.phase
                == LaunchPhase::Registering && event != LaunchEvent::Failed)
            &&& step == LaunchStep::SendParams <==> launch.phase == LaunchPhase::Connecting && event
                == LaunchEvent::Done
        }),
{
}

/// When each step after the proxy is told is asked for: the connection is kept if that is
/// configured; otherwise it is shut down, the phone is given time and disconnected, the headset
/// profile is dropped if it was registered, and the adapter loses its power if that is configured.
pub proof fn law_steps_after_the_exchange(launch: Launch, dongle_mode: bool, event: LaunchEvent)
    requires
        launch.accepts(event),
    ensures
        ({
            let step = launch.after(dongle_mode, event).1;
            let told = launch.phase == LaunchPhase::Notifying;
            let disconnected = launch.phase == LaunchPhase::Disconnecting && event
                == LaunchEvent::Done;
            let drops = launch.headset && !dongle_mode;
            let bare = (disconnected && !drops) || launch.phase == LaunchPhase::Unregistering;
            &&& step == LaunchStep::KeepAlive <==> told && launch.quick_reconnect
            &&& step == LaunchStep::Shutdown <==> told && !launch.quick_reconnect
            &&& step == LaunchStep::Pause <==> launch.phase == LaunchPhase::ShuttingDown
            &&& step == LaunchStep::Disconnect <==> launch.phase == LaunchPhase::Pausing
            &&& step == LaunchStep::UnregisterHeadset <==> disconnected && drops
            &&& step == LaunchStep::PowerOff <==> bare && launch.bt_poweroff
            &&& step == LaunchStep::Finished <==> (bare && !launch.bt_poweroff) || launch.phase
                == LaunchPhase::KeepingAlive || launch.phase == LaunchPhase::PoweringOff
            &&& step == LaunchStep::Failed <==> event == LaunchEvent::Failed
        }),
{
}

/// A handshake stands where its last step says, and goes on by what it was told at its beginning.
/// It holds the headset profile exactly from the moment the daemon took it until it is dropped.
pub proof fn law_handshake_stands_where_its_step_says(
    launch: Launch,
    dongle_mode: bool,
    event: LaunchEvent,
)
    requires
        launch.accepts(event),
    ensures
        ({
            let (next, step) = launch.after(dongle_mode, event);
            &&& next.phase == match step {
                LaunchStep::PowerOn => LaunchPhase::PoweringOn,
                LaunchStep::RegisterHeadset => LaunchPhase::Registering,
                LaunchStep::Connect => LaunchPhase::Connecting,
                LaunchStep::SendParams => LaunchPhase::Exchanging,
                LaunchStep::ClearStop => LaunchPhase::ClearingStop,
                LaunchStep::NotifyTcp => LaunchPhase::Notifying,
                LaunchStep::KeepAlive => LaunchPhase::KeepingAlive,
                LaunchStep::Shutdown => LaunchPhase::ShuttingDown,
                LaunchStep::Pause => LaunchPhase::Pausing,
                LaunchStep::Disconnect => LaunchPhase::Disconnecting,
                LaunchStep::UnregisterHeadset => LaunchPhase::Unregistering,
                LaunchStep::PowerOff => LaunchPhase::PoweringOff,
                LaunchStep::Finished | LaunchStep::Failed => LaunchPhase::Over,
            }
            &&& next.bt_poweroff == launch.bt_poweroff
            &&& next.stopped == launch.stopped
            &&& next.quick_reconnect == launch.quick_reconnect
            &&& launch.phase == LaunchPhase::Registering && event == LaunchEvent::Done
                ==> next.headset
            &&& launch.phase == LaunchPhase::Registering && event == LaunchEvent::NotRegistered
                ==> !next.headset
            &&& launch.phase == LaunchPhase::Unregistering ==> !next.headset
            &&& launch.phase != LaunchPhase::Registering && launch.phase
                != LaunchPhase::Unregistering ==> next.headset == launch.headset
        }),
{
}

/// A handshake at its beginning.
pub open spec fn fresh_launch(bt_poweroff: bool, stopped: bool, quick_reconnect: bool) -> Launch {
    Launch { bt_poweroff, stopped, quick_reconnect, headset: false, phase: LaunchPhase::New }
}

/// Where a handshake stands after these events.
pub open spec fn launch_after(launch: Launch, dongle_mode: bool, events: Seq<LaunchEvent>) -> Launch
    decreases events.len(),
{
    if events.len() == 0 {
        launch
    } else {
        launch_after(launch, dongle_mode, events.drop_last()).after(dongle_mode, events.last()).0
    }
}

/// Whether these events can happen one after the other in a handshake.
pub open spec fn launch_can_run(
    launch: Launch,
    dongle_mode: bool,
    events: Seq<LaunchEvent>,
) -> bool
    decreases events.len(),
{
    events.len() == 0 || (launch_can_run(launch, dongle_mode, events.drop_last()) && launch_after(
        launch,
        dongle_mode,
        events.drop_last(),
    ).accepts(events.last()))
}

/// What a handshake asks for while these events happen, one step for each.
pub open spec fn launch_steps(
    launch: Launch,
    dongle_mode: bool,
    events: Seq<LaunchEvent>,
) -> Seq<LaunchStep>
    decreases events.len(),
{
    if events.len() == 0 {
        seq![]
    } else {
        launch_steps(launch, dongle_mode, events.drop_last()).push(
            launch_after(launch, dongle_mode, events.drop_last()).after(
                dongle_mode,
                events.last(),
            ).1,
        )
    }
}

/// What the steps of a handshake say of where it stands.
spec fn steps_fit(launch: Launch, dongle_mode: bool, steps: Seq<LaunchStep>) -> bool {
    let p = launch.phase;
    &&& p == LaunchPhase::New <==> steps.len() == 0
    &&& steps.len() > 0 ==> (steps[0] == LaunchStep::PowerOn <==> launch.bt_poweroff)
    &&& forall|i: int| 0 < i < steps.len() ==> #[trigger] steps[i] != LaunchStep::PowerOn
    &&& p == LaunchPhase::PoweringOn ==> launch.bt_poweroff
    &&& steps.contains(LaunchStep::PowerOff) ==> p == LaunchPhase::PoweringOff || p
        == LaunchPhase::Over
    &&& p == LaunchPhase::PoweringOff ==> launch.bt_poweroff && steps.contains(
        LaunchStep::PowerOff,
    ) && !launch.quick_reconnect
    &&& steps.contains(LaunchStep::PowerOff) ==> launch.bt_poweroff && !launch.quick_reconnect
    &&& p == LaunchPhase::KeepingAlive ==> launch.quick_reconnect
    &&& p == LaunchPhase::ShuttingDown || p == LaunchPhase::Pausing || p
        == LaunchPhase::Disconnecting || p == LaunchPhase::Unregistering ==> !launch.quick_reconnect
    &&& steps.contains(LaunchStep::Finished) ==> p == LaunchPhase::Over && (steps.contains(
        LaunchStep::PowerOff,
    ) <==> launch.bt_poweroff && !launch.quick_reconnect)
}

proof fn lemma_steps_fit(launch: Launch, dongle_mode: bool, events: Seq<LaunchEvent>)
    requires
        launch.phase == LaunchPhase::New,
        launch_can_run(launch, dongle_mode, events),
    ensures
        launch_steps(launch, dongle_mode, events).len() == events.len(),
        launch_after(launch, dongle_mode, events).bt_poweroff == launch.bt_poweroff,
        launch_after(launch, dongle_mode, events).quick_reconnect == launch.quick_reconnect,
        steps_fit(
            launch_after(launch, dongle_mode, events),
            dongle_mode,
            launch_steps(launch, dongle_mode, events),
        ),
    decreases events.len(),
{
    if events.len() > 0 {
        let before = events.drop_last();
        lemma_steps_fit(launch, dongle_mode, before);
        let here = launch_after(launch, dongle_mode, before);
        let (next, step) = here.after(dongle_mode, events.last());
        let old_steps = launch_steps(launch, dongle_mode, before);
        let steps = old_steps.push(step);
        assert(steps[steps.len() - 1] == step);
        assert forall|c: LaunchStep| #[trigger] steps.contains(c) <==> old_steps.contains(c) || c
            == step by {
            if old_steps.contains(c) {
                let i = choose|i: int| 0 <= i < old_steps.len() && old_steps[i] == c;
                assert(steps[i] == c);
            }
        }
    }
}

/// Over any run of a handshake: if the adapter is powered down between handshakes, then power is
/// the first thing asked for, and it is asked for only once; and otherwise it is never asked for.
/// Power is taken away in a run that finishes exactly if that is configured and the connection is
/// not kept.
pub proof fn law_power_comes_first(
    bt_poweroff: bool,
    stopped: bool,
    quick_reconnect: bool,
    dongle_mode: bool,
    events: Seq<LaunchEvent>,
)
    requires
        events.len() > 0,
        launch_can_run(fresh_launch(bt_poweroff, stopped, quick_reconnect), dongle_mode, events),
    ensures
        ({
            let steps = launch_steps(
                fresh_launch(bt_poweroff, stopped, quick_reconnect),
                dongle_mode,
                events,
            );
            &&& steps.len() == events.len()
            &&& steps[0] == LaunchStep::PowerOn <==> bt_poweroff
            &&& forall|i: int| 0 < i < steps.len() ==> #[trigger] steps[i] != LaunchStep::PowerOn
            &&& steps.contains(LaunchStep::PowerOff) ==> bt_poweroff && !quick_reconnect
            &&& steps.contains(LaunchStep::Finished) ==> (steps.contains(LaunchStep::PowerOff)
                <==> bt_poweroff && !quick_reconnect)
        }),
{
    lemma_steps_fit(fresh_launch(bt_poweroff, stopped, quick_reconnect), dongle_mode, events);
}

/// What can happen to each thing that a handshake asks for: it is done; the profile can also be
/// refused; and what rests on the daemon, the phone or the device can fail.
pub proof fn law_what_can_happen_in_a_handshake(launch: Launch, event: LaunchEvent)
    ensures
        launch.phase == LaunchPhase::New ==> (launch.accepts(event) <==> event
            == LaunchEvent::Begin),
        launch.phase == LaunchPhase::Over ==> !launch.accepts(event),
        launch.phase == LaunchPhase::Registering ==> (launch.accepts(event) <==> event
            != LaunchEvent::Begin),
        launch.phase == LaunchPhase::Connecting || launch.phase == LaunchPhase::Exchanging
            || launch.phase == LaunchPhase::Disconnecting ==> (launch.accepts(event) <==> event
            == LaunchEvent::Done || event == LaunchEvent::Failed),
        launch.phase == LaunchPhase::PoweringOn || launch.phase == LaunchPhase::ClearingStop
            || launch.phase == LaunchPhase::Notifying || launch.phase == LaunchPhase::ShuttingDown
            || launch.phase == LaunchPhase::Pausing || launch.phase == LaunchPhase::KeepingAlive
            || launch.phase == LaunchPhase::Unregistering || launch.phase
            == LaunchPhase::PoweringOff ==> (launch.accepts(event) <==> event == LaunchEvent::Done),
{
}

/// When the task that keeps a connection asks for each of its steps, and where it then stands.
pub proof fn law_steps_of_the_keeper(phase: KeeperPhase, headset: bool, event: KeeperEvent)
    requires
        keeper_accepts(phase, event),
    ensures
        ({
            let (next, step) = keeper_after(phase, headset, event);
            let stop = event == KeeperEvent::Restart(Some(Action::Stop));
            &&& step == KeeperStep::SetConnected(true) <==> phase == KeeperPhase::New
            &&& step == KeeperStep::AwaitRestart <==> phase == KeeperPhase::Marking || phase
                == KeeperPhase::Notifying
            &&& step == KeeperStep::SendParams <==> phase == KeeperPhase::Waiting && !stop
            &&& step == KeeperStep::NotifyTcp <==> phase == KeeperPhase::Resending && event
                == KeeperEvent::Done
            &&& step == KeeperStep::Shutdown <==> phase == KeeperPhase::Waiting && stop
            &&& step == KeeperStep::Drain <==> phase == KeeperPhase::ShuttingDown || (phase
                == KeeperPhase::Draining && (event matches KeeperEvent::Read(n) && n != 0))
            &&& step == KeeperStep::Settle <==> phase == KeeperPhase::Draining && (event
                == KeeperEvent::Read(0) || event == KeeperEvent::NothingRead)
            &&& step == KeeperStep::Disconnect <==> phase == KeeperPhase::Settling
            &&& step == KeeperStep::SetConnected(false) <==> phase == KeeperPhase::Disconnecting || (
            phase == KeeperPhase::Resending && event == KeeperEvent::Failed)
            &&& step == KeeperStep::UnregisterHeadset <==> phase == KeeperPhase::Leaving && headset
            &&& step == KeeperStep::NotifyMain <==> phase == KeeperPhase::Unregistering || (phase
                == KeeperPhase::Leaving && !headset)
            &&& step == KeeperStep::Finished <==> phase == KeeperPhase::Reporting
            &&& next == match step {
                KeeperStep::SetConnected(true) => KeeperPhase::Marking,
                KeeperStep::SetConnected(false) => KeeperPhase::Leaving,
                KeeperStep::AwaitRestart => KeeperPhase::Waiting,
                KeeperStep::SendParams => KeeperPhase::Resending,
                KeeperStep::NotifyTcp => KeeperPhase::Notifying,
                KeeperStep::Shutdown => KeeperPhase::ShuttingDown,
                KeeperStep::Drain => KeeperPhase::Draining,
                KeeperStep::Settle => KeeperPhase::Settling,
                KeeperStep::Disconnect => KeeperPhase::Disconnecting,
                KeeperStep::UnregisterHeadset => KeeperPhase::Unregistering,
                KeeperStep::NotifyMain => KeeperPhase::Reporting,
                KeeperStep::Finished => KeeperPhase::Over,
            }
        }),
{
}

/// What can happen to each thing that the task asks for.
pub proof fn law_what_can_happen_to_the_keeper(phase: KeeperPhase, event: KeeperEvent)
    ensures
        phase == KeeperPhase::New ==> (keeper_accepts(phase, event) <==> event
            == KeeperEvent::Begin),
        phase == KeeperPhase::Waiting ==> (keeper_accepts(phase, event) <==> event is Restart),
        phase == KeeperPhase::Resending ==> (keeper_accepts(phase, event) <==> event
            == KeeperEvent::Done || event == KeeperEvent::Failed),
        phase == KeeperPhase::Draining ==> (keeper_accepts(phase, event) <==> event is Read || event
            == KeeperEvent::NothingRead),
        phase == KeeperPhase::Over ==> !keeper_accepts(phase, event),
        phase != KeeperPhase::New && phase != KeeperPhase::Waiting && phase
            != KeeperPhase::Resending && phase != KeeperPhase::Draining && phase
            != KeeperPhase::Over ==> (keeper_accepts(phase, event) <==> event == KeeperEvent::Done),
{
}

/// A new handshake goes by what it is told.
pub proof fn law_new_handshake(bt_poweroff: bool, stopped: bool, quick_reconnect: bool, l: Launch)
    requires
        call_ensures(Launch::new, (bt_poweroff, stopped, quick_reconnect), l),
    ensures
        l == fresh_launch(bt_poweroff, stopped, quick_reconnect),
{
}

/// When the proxy began to wait is forgotten exactly once the stop is cleared, and not before.
pub proof fn law_stop_time_is_forgotten_with_the_stop(
    launch: Launch,
    dongle_mode: bool,
    event: LaunchEvent,
    stopped_at: Option<u128>,
)
    requires
        launch.accepts(event),
    ensures
        launch.phase != LaunchPhase::ClearingStop ==> launch.stop_time_after(stopped_at)
            == stopped_at,
        launch.after(dongle_mode, event).1 == LaunchStep::ClearStop ==> launch.after(
            dongle_mode,
            event,
        ).0.stop_time_after(stopped_at) is None,
{
}

} // verus!

//! The course of a session: when each of its commands is given, in which order, and what the
//! session then knows of its two ends.

use vstd::prelude::*;
use crate::config::Action;
use crate::session::{
    fresh_session,
    lemma_cleanup_has,
    lemma_contains_either,
    lemma_settings_stay,
    session_after,
    session_can_run,
    Command,
    Link,
    Session,
    SessionEvent,
    SessionPhase,
    SessionSettings,
};

verus! {

/// Whether an event means that the side of the phone is ready, as far as it has to be before the
/// head unit: a phone is on USB, or one has connected and was looked up, or a server takes its
/// place.
pub open spec fn phone_comes_up(s: Session, event: SessionEvent) -> bool {
    event == SessionEvent::UsbConnected || event is PhoneLookedUp || (event == SessionEvent::Begin
        && s.settings.direct)
}

/// Whether an event means that the head unit is there.
pub open spec fn head_unit_comes_up(s: Session, event: SessionEvent) -> bool {
    event == SessionEvent::Done && (s.phase == SessionPhase::AcceptingHeadUnit || s.phase
        == SessionPhase::OpeningAccessory)
}

/// Whether an event means that data can be carried: both ends are there, and the handle of an
/// accessory has been duplicated.
pub open spec fn all_is_up(s: Session, event: SessionEvent) -> bool {
    event == SessionEvent::Done && match s.phase {
        SessionPhase::AcceptingHeadUnit => !s.settings.direct,
        SessionPhase::ConnectingDirectly => s.head_unit != Link::Usb,
        SessionPhase::DuplicatingAccessory => true,
        _ => false,
    }
}

/// Whether an event means that the session comes to nothing, other than by a server that cannot be
/// reached: an end could not be had, or the pause for a busy accessory is over.
pub open spec fn comes_to_nothing(s: Session, event: SessionEvent) -> bool {
    s.phase == SessionPhase::AwaitingAccessory || (event == SessionEvent::Failed && (s.phase
        == SessionPhase::AcceptingPhone || s.phase == SessionPhase::AcceptingHeadUnit || s.phase
        == SessionPhase::OpeningAccessory || s.phase == SessionPhase::DuplicatingAccessory))
}

/// Whether a command is due with an event.
spec fn due(s: Session, event: SessionEvent, c: Command) -> bool {
    let settings = s.settings;
    let ended = event is Ended;
    let reached = s.phase == SessionPhase::ConnectingDirectly && event == SessionEvent::Done;
    let unreachable = s.phase == SessionPhase::ConnectingDirectly && event == SessionEvent::Failed;
    match c {
        Command::SetUsbConnected(b) => if b {
            event == SessionEvent::UsbConnected
        } else {
            (event == SessionEvent::Begin && settings.direct) || (event is PhoneLookedUp
                && !settings.wired) || event is ActionIs
        },
        Command::AwaitUsbOrHandshake => event == SessionEvent::Begin && !settings.direct
            && settings.wired,
        Command::AwaitHandshake => event == SessionEvent::Begin && !settings.direct
            && !settings.wired,
        Command::AcceptPhone => event == SessionEvent::HandshakeDone,
        Command::LookUpPhone => s.phase == SessionPhase::AcceptingPhone && event
            == SessionEvent::Done,
        Command::AcceptHeadUnit => phone_comes_up(s, event) && settings.dhu,
        Command::OpenAccessory => phone_comes_up(s, event) && !settings.dhu,
        Command::Pause(ms) => (event == SessionEvent::Busy && ms == 5000) || (unreachable && ms
            == 500),
        Command::ConnectDirectly => head_unit_comes_up(s, event) && settings.direct,
        Command::KeepServerAddress => reached,
        Command::DuplicateAccessory => (head_unit_comes_up(s, event) && s.phase
            == SessionPhase::OpeningAccessory && !settings.direct) || (reached && s.head_unit
            == Link::Usb),
        Command::PublishSender => all_is_up(s, event) && settings.mitm,
        Command::Run { watch_usb } => all_is_up(s, event) && (watch_usb <==> settings.wired && (
        s.phase == SessionPhase::ConnectingDirectly || s.phone != Link::Usb)),
        Command::ResetUsb => event == SessionEvent::Ended(true) && s.phone == Link::Usb,
        Command::CancelBridges => s.bridges && (ended || comes_to_nothing(s, event)),
        Command::ClearMediaEndpoints => ended,
        Command::AbortTasks => ended,
        Command::ShutDownPhone => ended && s.phone == Link::Tcp,
        Command::ShutDownHeadUnit => ended && s.head_unit == Link::Tcp,
        Command::Disassociate => ended && s.known,
        Command::WithdrawSender => ended,
        Command::ClearSensorChannel => ended,
        Command::ClearInputChannel => ended,
        Command::StopLogger => ended && settings.logger,
        Command::ReportTime | Command::ReadAction => (ended && !settings.logger) || (s.phase
            == SessionPhase::StoppingLogger && event == SessionEvent::Done),
        Command::NotifyRestart(action) => event == SessionEvent::ActionIs(action) || (action is None
            && (unreachable || comes_to_nothing(s, event))),
        Command::BeginAgain => event is ActionIs || comes_to_nothing(s, event) || s.phase
            == SessionPhase::PausingAfterDirect,
        Command::Leave => s.phase == SessionPhase::StoppingLogger && event == SessionEvent::Failed,
    }
}

proof fn lemma_few_members(step: Seq<Command>, c: Command)
    requires
        step.len() <= 3,
    ensures
        step.contains(c) <==> (step.len() > 0 && step[0] == c) || (step.len() > 1 && step[1] == c)
            || (step.len() > 2 && step[2] == c),
{
}

proof fn lemma_before_data(s: Session, event: SessionEvent, c: Command)
    requires
        s.accepts(event),
        s.phase != SessionPhase::Running,
    ensures
        s.after(event).1.contains(c) <==> due(s, event, c),
{
    let step = s.after(event).1;
    lemma_few_members(step, c);
}

proof fn lemma_after_data(s: Session, event: SessionEvent, c: Command)
    requires
        s.accepts(event),
        s.phase == SessionPhase::Running,
    ensures
        s.after(event).1.contains(c) <==> due(s, event, c),
{
    let failed = event == SessionEvent::Ended(true);
    lemma_cleanup_has(s, failed);
    lemma_contains_either(s.cleanup(failed), seq![Command::StopLogger]);
    lemma_contains_either(s.cleanup(failed), Session::closing());
    lemma_few_members(seq![Command::StopLogger], c);
    lemma_few_members(Session::closing(), c);
}

proof fn lemma_given_when_due(s: Session, event: SessionEvent, c: Command)
    requires
        s.accepts(event),
    ensures
        s.after(event).1.contains(c) <==> due(s, event, c),
{
    if s.phase == SessionPhase::Running {
        lemma_after_data(s, event, c);
    } else {
        lemma_before_data(s, event, c);
    }
}

/// The head unit is the one that is configured: in every session an emulator is accepted only if
/// there is to be one, and the accessory is opened only otherwise. One of the two is done, and not
/// both, in every step with which the side of the phone becomes ready, and in no other.
pub proof fn law_head_unit_is_as_configured(
    settings: SessionSettings,
    events: Seq<SessionEvent>,
    event: SessionEvent,
)
    requires
        session_can_run(fresh_session(settings), events),
        session_after(fresh_session(settings), events).accepts(event),
    ensures
        ({
            let commands = session_after(fresh_session(settings), events).after(event).1;
            let accepts = commands.contains(Command::AcceptHeadUnit);
            let opens = commands.contains(Command::OpenAccessory);
            &&& accepts ==> settings.dhu
            &&& opens ==> !settings.dhu
            &&& !(accepts && opens)
            &&& accepts || opens <==> event == SessionEvent::UsbConnected || event is PhoneLookedUp
                || (event == SessionEvent::Begin && settings.direct)
            &&& accepts ==> commands.last() == Command::AcceptHeadUnit
            &&& opens ==> commands.last() == Command::OpenAccessory
        }),
{
    let s = session_after(fresh_session(settings), events);
    lemma_settings_stay(settings, events);
    lemma_given_when_due(s, event, Command::AcceptHeadUnit);
    lemma_given_when_due(s, event, Command::OpenAccessory);
}

/// How a phone is waited for: a server needs none; otherwise USB is watched if a phone may be
/// there, and a handshake over Bluetooth is waited for in any case. After the handshake the phone
/// is accepted, and one that was accepted is looked up.
pub proof fn law_phone_is_waited_for(s: Session, event: SessionEvent)
    requires
        s.accepts(event),
    ensures
        ({
            let commands = s.after(event).1;
            let begin = event == SessionEvent::Begin;
            &&& commands.contains(Command::AwaitUsbOrHandshake) <==> begin && !s.settings.direct
                && s.settings.wired
            &&& commands.contains(Command::AwaitHandshake) <==> begin && !s.settings.direct
                && !s.settings.wired
            &&& commands.contains(Command::AcceptPhone) <==> event == SessionEvent::HandshakeDone
            &&& commands.contains(Command::LookUpPhone) <==> s.phase == SessionPhase::AcceptingPhone
                && event == SessionEvent::Done
        }),
{
    lemma_given_when_due(s, event, Command::AwaitUsbOrHandshake);
    lemma_given_when_due(s, event, Command::AwaitHandshake);
    lemma_given_when_due(s, event, Command::AcceptPhone);
    lemma_given_when_due(s, event, Command::LookUpPhone);
}

/// The rest of the program is told that a phone is on USB exactly when one is found there; and that
/// none is when a session with a server begins, when a phone has come without USB being watched,
/// and when a session that carried data is over.
pub proof fn law_usb_is_told_of(s: Session, event: SessionEvent)
    requires
        s.accepts(event),
    ensures
        s.after(event).1.contains(Command::SetUsbConnected(true)) <==> event
            == SessionEvent::UsbConnected,
        s.after(event).1.contains(Command::SetUsbConnected(false)) <==> (event
            == SessionEvent::Begin && s.settings.direct) || (event is PhoneLookedUp
            && !s.settings.wired) || event is ActionIs,
{
    lemma_given_when_due(s, event, Command::SetUsbConnected(true));
    lemma_given_when_due(s, event, Command::SetUsbConnected(false));
}

/// What is done once the head unit is there. A server, if there is one, is connected to then, and
/// its address is kept once it is reached; the handle of an accessory is duplicated when both ends
/// are there.
pub proof fn law_server_comes_after_the_head_unit(s: Session, event: SessionEvent)
    requires
        s.accepts(event),
    ensures
        ({
            let commands = s.after(event).1;
            let done = event == SessionEvent::Done;
            let accepted = done && s.phase == SessionPhase::AcceptingHeadUnit;
            let opened = done && s.phase == SessionPhase::OpeningAccessory;
            let reached = done && s.phase == SessionPhase::ConnectingDirectly;
            &&& commands.contains(Command::ConnectDirectly) <==> (accepted || opened)
                && s.settings.direct
            &&& commands.contains(Command::KeepServerAddress) <==> reached
            &&& commands.contains(Command::DuplicateAccessory) <==> (opened && !s.settings.direct)
                || (reached && s.head_unit == Link::Usb)
        }),
{
    lemma_given_when_due(s, event, Command::ConnectDirectly);
    lemma_given_when_due(s, event, Command::KeepServerAddress);
    lemma_given_when_due(s, event, Command::DuplicateAccessory);
}

/// Data is carried as soon as everything for it is there, and at no other time. Others can send
/// packets into the session exactly if packets are looked into. USB is watched meanwhile exactly if
/// a phone may be there and is not.
pub proof fn law_data_is_carried_when_all_is_up(s: Session, event: SessionEvent, watch_usb: bool)
    requires
        s.accepts(event),
    ensures
        ({
            let (next, commands) = s.after(event);
            let done = event == SessionEvent::Done;
            let up = (done && s.phase == SessionPhase::AcceptingHeadUnit && !s.settings.direct) || (
            done && s.phase == SessionPhase::ConnectingDirectly && s.head_unit != Link::Usb) || (done
                && s.phase == SessionPhase::DuplicatingAccessory);
            &&& commands.contains(Command::Run { watch_usb }) <==> up && (watch_usb
                <==> s.settings.wired && next.phone != Link::Usb)
            &&& commands.contains(Command::PublishSender) <==> up && s.settings.mitm
        }),
{
    lemma_given_when_due(s, event, Command::Run { watch_usb });
    lemma_given_when_due(s, event, Command::PublishSender);
}

/// What is closed when data is no longer carried is closed at no other time, except for bridges,
/// which end as well when a session comes to nothing after they were begun.
pub proof fn law_closing_belongs_to_the_end_of_data(s: Session, event: SessionEvent)
    requires
        s.accepts(event),
    ensures
        ({
            let commands = s.after(event).1;
            let ended = event is Ended;
            let nothing = s.phase == SessionPhase::AwaitingAccessory || (event
                == SessionEvent::Failed && (s.phase == SessionPhase::AcceptingPhone || s.phase
                == SessionPhase::AcceptingHeadUnit || s.phase == SessionPhase::OpeningAccessory
                || s.phase == SessionPhase::DuplicatingAccessory));
            &&& commands.contains(Command::ResetUsb) <==> event == SessionEvent::Ended(true)
                && s.phone == Link::Usb
            &&& commands.contains(Command::CancelBridges) <==> s.bridges && (ended || nothing)
            &&& commands.contains(Command::ClearMediaEndpoints) <==> ended
            &&& commands.contains(Command::AbortTasks) <==> ended
            &&& commands.contains(Command::ShutDownPhone) <==> ended && s.phone == Link::Tcp
            &&& commands.contains(Command::ShutDownHeadUnit) <==> ended && s.head_unit == Link::Tcp
            &&& commands.contains(Command::Disassociate) <==> ended && s.known
            &&& commands.contains(Command::WithdrawSender) <==> ended
            &&& commands.contains(Command::ClearSensorChannel) <==> ended
            &&& commands.contains(Command::ClearInputChannel) <==> ended
            &&& commands.contains(Command::StopLogger) <==> ended && s.settings.logger
        }),
{
    lemma_given_when_due(s, event, Command::ResetUsb);
    lemma_given_when_due(s, event, Command::CancelBridges);
    lemma_given_when_due(s, event, Command::ClearMediaEndpoints);
    lemma_given_when_due(s, event, Command::AbortTasks);
    lemma_given_when_due(s, event, Command::ShutDownPhone);
    lemma_given_when_due(s, event, Command::ShutDownHeadUnit);
    lemma_given_when_due(s, event, Command::Disassociate);
    lemma_given_when_due(s, event, Command::WithdrawSender);
    lemma_given_when_due(s, event, Command::ClearSensorChannel);
    lemma_given_when_due(s, event, Command::ClearInputChannel);
    lemma_given_when_due(s, event, Command::StopLogger);
}

/// How a session is over. One that carried data says how long it lasted, finds out what the user
/// asks for once a logger is stopped, and passes that on. One that came to nothing passes on that
/// nothing is asked for: at once, except that a busy accessory is waited for first, and that
/// another session is begun only after a pause if the server could not be reached. No other session
/// follows one whose logger could not be stopped.
pub proof fn law_how_a_session_is_over(s: Session, event: SessionEvent, action: Option<Action>)
    requires
        s.accepts(event),
    ensures
        ({
            let commands = s.after(event).1;
            let failed = event == SessionEvent::Failed;
            let unreachable = failed && s.phase == SessionPhase::ConnectingDirectly;
            let nothing = s.phase == SessionPhase::AwaitingAccessory || (failed && (s.phase
                == SessionPhase::AcceptingPhone || s.phase == SessionPhase::AcceptingHeadUnit
                || s.phase == SessionPhase::OpeningAccessory || s.phase
                == SessionPhase::DuplicatingAccessory));
            let closed = (event is Ended && !s.settings.logger) || (event == SessionEvent::Done
                && s.phase == SessionPhase::StoppingLogger);
            &&& commands.contains(Command::ReportTime) <==> closed
            &&& commands.contains(Command::ReadAction) <==> closed
            &&& commands.contains(Command::NotifyRestart(action)) <==> event
                == SessionEvent::ActionIs(action) || ((nothing || unreachable) && action is None)
            &&& commands.contains(Command::BeginAgain) <==> event is ActionIs || nothing || s.phase
                == SessionPhase::PausingAfterDirect
            &&& commands.contains(Command::Leave) <==> failed && s.phase
                == SessionPhase::StoppingLogger
        }),
{
    lemma_given_when_due(s, event, Command::ReportTime);
    lemma_given_when_due(s, event, Command::ReadAction);
    lemma_given_when_due(s, event, Command::NotifyRestart(action));
    lemma_given_when_due(s, event, Command::BeginAgain);
    lemma_given_when_due(s, event, Command::Leave);
}

/// A session pauses for five seconds if the accessory is busy, for half a second if the server
/// cannot be reached, and otherwise not at all.
pub proof fn law_when_a_session_pauses(s: Session, event: SessionEvent, ms: u64)
    requires
        s.accepts(event),
    ensures
        s.after(event).1.contains(Command::Pause(ms)) <==> (event == SessionEvent::Busy && ms
            == 5000) || (s.phase == SessionPhase::ConnectingDirectly && event
            == SessionEvent::Failed && ms == 500),
{
    lemma_given_when_due(s, event, Command::Pause(ms));
}

/// The place of a command among those of one step.
pub open spec fn rank(c: Command) -> int {
    match c {
        Command::NotifyRestart(_) => 0,
        Command::ResetUsb => 1,
        Command::CancelBridges => 2,
        Command::ClearMediaEndpoints => 3,
        Command::AbortTasks => 4,
        Command::ShutDownPhone => 5,
        Command::ShutDownHeadUnit => 6,
        Command::Disassociate => 7,
        Command::WithdrawSender => 8,
        Command::ClearSensorChannel => 9,
        Command::ClearInputChannel => 10,
        Command::KeepServerAddress => 11,
        Command::SetUsbConnected(_) => 12,
        Command::PublishSender => 13,
        Command::ReportTime => 14,
        _ => 15,
    }
}

/// The commands of a step come in this order, and none comes twice: the end of the session is told
/// of first; bridges and tasks end before connections are closed, and these before what others
/// reach the session by is withdrawn; and what is waited for, or ends the session, comes last.
pub proof fn law_commands_come_in_order(s: Session, event: SessionEvent, i: int, j: int)
    requires
        s.accepts(event),
        0 <= i < j < s.after(event).1.len(),
    ensures
        rank(s.after(event).1[i]) < rank(s.after(event).1[j]),
{
    if s.phase == SessionPhase::Running {
        lemma_cleanup_in_order(s, event == SessionEvent::Ended(true));
    }
}

spec fn ordered(commands: Seq<Command>, low: int, high: int) -> bool {
    &&& forall|i: int| 0 <= i < commands.len() ==> low <= rank(#[trigger] commands[i]) <= high
    &&& forall|i: int, j: int|
        0 <= i < j < commands.len() ==> rank(#[trigger] commands[i]) < rank(#[trigger] commands[j])
}

proof fn lemma_ordered_parts(a: Seq<Command>, b: Seq<Command>, low: int, mid: int, high: int)
    requires
        ordered(a, low, mid),
        ordered(b, mid + 1, high),
        low <= mid <= high,
    ensures
        ordered(a + b, low, high),
{
    let all = a + b;
    assert forall|i: int| 0 <= i < all.len() implies low <= rank(#[trigger] all[i]) <= high by {
        if i >= a.len() {
            assert(all[i] == b[i - a.len()]);
        }
    }
    assert forall|i: int, j: int| 0 <= i < j < all.len() implies rank(#[trigger] all[i]) < rank(
        #[trigger] all[j],
    ) by {
        if i >= a.len() {
            assert(all[i] == b[i - a.len()]);
            assert(all[j] == b[j - a.len()]);
        } else if j >= a.len() {
            assert(all[j] == b[j - a.len()]);
        }
    }
}

#[verifier::rlimit(30)]
proof fn lemma_cleanup_in_order(s: Session, failed: bool)
    ensures
        ordered(s.cleanup(failed), 1, 10),
        ordered(s.cleanup(failed) + seq![Command::StopLogger], 1, 15),
        ordered(s.cleanup(failed) + Session::closing(), 1, 15),
{
    assert(ordered(s.stopping(failed), 1, 4));
    assert(ordered(s.parting(), 5, 10));
    lemma_ordered_parts(s.stopping(failed), s.parting(), 1, 4, 10);
    lemma_ordered_parts(s.cleanup(failed), seq![Command::StopLogger], 1, 10, 15);
    lemma_ordered_parts(s.cleanup(failed), Session::closing(), 1, 10, 15);
}

/// A session stands where the last command of its last step says.
#[verifier::rlimit(30)]
pub proof fn law_session_stands_where_its_step_says(s: Session, event: SessionEvent)
    requires
        s.accepts(event),
    ensures
        ({
            let (next, commands) = s.after(event);
            &&& commands.len() > 0
            &&& match commands.last() {
                Command::AwaitUsbOrHandshake => next.phase == SessionPhase::AwaitingUsbOrHandshake,
                Command::AwaitHandshake => next.phase == SessionPhase::AwaitingHandshake,
                Command::AcceptPhone => next.phase == SessionPhase::AcceptingPhone,
                Command::LookUpPhone => next.phase == SessionPhase::LookingUpPhone,
                Command::AcceptHeadUnit => next.phase == SessionPhase::AcceptingHeadUnit,
                Command::OpenAccessory => next.phase == SessionPhase::OpeningAccessory,
                Command::Pause(_) => next.phase == if event == SessionEvent::Busy {
                    SessionPhase::AwaitingAccessory
                } else {
                    SessionPhase::PausingAfterDirect
                },
                Command::ConnectDirectly => next.phase == SessionPhase::ConnectingDirectly,
                Command::DuplicateAccessory => next.phase == SessionPhase::DuplicatingAccessory,
                Command::Run { .. } => next.phase == SessionPhase::Running,
                Command::StopLogger => next.phase == SessionPhase::StoppingLogger,
                Command::ReadAction => next.phase == SessionPhase::ReadingAction,
                Command::BeginAgain => next.phase == SessionPhase::Over,
                Command::Leave => next.phase == SessionPhase::Left,
                _ => false,
            }
        }),
{
    if s.phase == SessionPhase::Running {
        let cleaning = s.cleanup(event == SessionEvent::Ended(true));
        assert((cleaning + seq![Command::StopLogger]).last() == Command::StopLogger);
        assert((cleaning + Session::closing()).last() == Command::ReadAction);
    }
}

/// What a session knows of its ends: the phone is on USB once it is found there, and on the network
/// once it is accepted, with bridges, or once the server is reached; the head unit is on the
/// network if it was accepted, and on USB if it was opened; and whether the hardware address of the
/// phone is known is what looking it up gave. Nothing else changes any of this.
pub proof fn law_session_knows_its_ends(s: Session, event: SessionEvent)
    requires
        s.accepts(event),
    ensures
        ({
            let next = s.after(event).0;
            let done = event == SessionEvent::Done;
            let accepted = done && s.phase == SessionPhase::AcceptingPhone;
            let reached = done && s.phase == SessionPhase::ConnectingDirectly;
            &&& next.settings == s.settings
            &&& next.phone == if event == SessionEvent::UsbConnected {
                Link::Usb
            } else if accepted || reached {
                Link::Tcp
            } else {
                s.phone
            }
            &&& next.head_unit == if done && s.phase == SessionPhase::AcceptingHeadUnit {
                Link::Tcp
            } else if done && s.phase == SessionPhase::OpeningAccessory {
                Link::Usb
            } else {
                s.head_unit
            }
            &&& next.bridges <==> s.bridges || accepted
            &&& next.known == match event {
                SessionEvent::PhoneLookedUp(known) => known,
                _ => s.known,
            }
        }),
{
}

/// What can happen in a session: what it waits for, and nothing else.
pub proof fn law_what_can_happen_in_a_session(s: Session, event: SessionEvent)
    ensures
        event == SessionEvent::Begin ==> (s.accepts(event) <==> s.phase == SessionPhase::New),
        event == SessionEvent::UsbConnected ==> (s.accepts(event) <==> s.phase
            == SessionPhase::AwaitingUsbOrHandshake),
        event == SessionEvent::HandshakeDone ==> (s.accepts(event) <==> s.phase
            == SessionPhase::AwaitingUsbOrHandshake || s.phase == SessionPhase::AwaitingHandshake),
        event is PhoneLookedUp ==> (s.accepts(event) <==> s.phase == SessionPhase::LookingUpPhone),
        event == SessionEvent::Busy ==> (s.accepts(event) <==> s.phase
            == SessionPhase::OpeningAccessory),
        event is Ended ==> (s.accepts(event) <==> s.phase == SessionPhase::Running),
        event is ActionIs ==> (s.accepts(event) <==> s.phase == SessionPhase::ReadingAction),
        event == SessionEvent::Failed ==> (s.accepts(event) <==> s.phase
            == SessionPhase::AcceptingPhone || s.phase == SessionPhase::AcceptingHeadUnit || s.phase
            == SessionPhase::OpeningAccessory || s.phase == SessionPhase::ConnectingDirectly
            || s.phase == SessionPhase::DuplicatingAccessory || s.phase
            == SessionPhase::StoppingLogger),
        event == SessionEvent::Done ==> (s.accepts(event) <==> s.phase
            == SessionPhase::AcceptingPhone || s.phase == SessionPhase::AcceptingHeadUnit || s.phase
            == SessionPhase::OpeningAccessory || s.phase == SessionPhase::AwaitingAccessory
            || s.phase == SessionPhase::ConnectingDirectly || s.phase
            == SessionPhase::PausingAfterDirect || s.phase == SessionPhase::DuplicatingAccessory
            || s.phase == SessionPhase::StoppingLogger),
{
}

/// A session begins with neither end, without bridges, and with nothing known of a phone.
pub proof fn law_session_begins_with_nothing(settings: SessionSettings)
    ensures
        ({
            let s = fresh_session(settings);
            &&& s.settings == settings
            &&& s.phone == Link::Absent
            &&& s.head_unit == Link::Absent
            &&& !s.bridges
            &&& !s.known
            &&& s.accepts(SessionEvent::Begin)
        }),
{
}

} // verus!

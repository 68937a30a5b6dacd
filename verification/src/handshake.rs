//! The exchange in which the phone learns how to reach the proxy over Wi-Fi.

use vstd::prelude::*;
use crate::config::WifiConfig;
use crate::frame::{read_message, reports_failure, FrameError, Header, MessageId};

verus! {

/// The number of stages of the exchange.
pub const STAGES: u8 = 5;

/// How the access point protects its traffic.
#[derive(Debug, Clone, Copy, PartialEq, Eq, Structural)]
pub enum SecurityMode {
    Wpa2Personal,
}

/// How the access point came to be.
#[derive(Debug, Clone, Copy, PartialEq, Eq, Structural)]
pub enum AccessPointType {
    Dynamic,
}

/// The fields of a message to the phone.
#[derive(Debug, Clone)]
pub enum Outgoing {
    /// Where the proxy listens.
    WifiStart { ip_address: String, port: i32 },
    /// How to join the access point.
    WifiInfo {
        ssid: String,
        key: String,
        bssid: String,
        security_mode: SecurityMode,
        access_point_type: AccessPointType,
    },
}

impl Outgoing {
    /// Whether this is the message of kind `id` for a phone that is to reach the proxy as `wifi`
    /// says.
    pub open spec fn tells(&self, id: MessageId, wifi: WifiConfig) -> bool {
        match self {
            Outgoing::WifiStart { ip_address, port } => id == MessageId::WifiStartRequest
                && ip_address@ == wifi.ip_addr@ && *port == wifi.port,
            Outgoing::WifiInfo { ssid, key, bssid, security_mode, access_point_type } => id
                == MessageId::WifiInfoResponse && ssid@ == wifi.ssid@ && key@ == wifi.wpa_key@
                && bssid@ == wifi.bssid@ && *security_mode == SecurityMode::Wpa2Personal
                && *access_point_type == AccessPointType::Dynamic,
        }
    }
}

/// Where an exchange stands.
#[derive(Debug, Clone, Copy, PartialEq, Eq, Structural)]
pub enum ExchangePhase {
    New,
    /// The phone is being told where the proxy listens.
    SendingStart,
    /// The phone is to ask how to join the access point.
    AwaitingInfoRequest,
    /// The phone is being told how to join the access point.
    SendingInfo,
    /// The phone is to confirm.
    AwaitingStartResponse,
    /// The phone is to say whether it could join the access point.
    AwaitingStatus,
    Over,
}

/// What happened to what an exchange asked for.
#[derive(Debug, Clone)]
pub enum ExchangeEvent {
    /// The exchange begins.
    Begin,
    /// The message is sent.
    Sent,
    /// A message was received: its header and its body.
    Received(Header, Vec<u8>),
    /// The message could not be sent, or none was received in full.
    Failed,
}

/// What an exchange asks for next.
#[derive(Debug, Clone)]
pub enum ExchangeStep {
    /// Send this message to the phone.
    Send { stage: u8, id: MessageId, message: Outgoing },
    /// Wait for a message of this kind from the phone.
    Receive { stage: u8, id: MessageId },
    /// The exchange is over: the phone knows how to reach the proxy.
    Finished,
    /// The exchange is over, with the error that was just met.
    Failed,
    /// The exchange is over, because of what the phone says.
    Refused(FrameError),
}

/// What an exchange asks for next, without the contents of messages.
pub enum ExchangeMove {
    Send(u8, MessageId),
    Receive(u8, MessageId),
    Finished,
    Failed,
    Refused,
}

impl ExchangeStep {
    /// Whether this step makes the move `m`, where the phone is to reach the proxy as `wifi` says.
    pub open spec fn makes(&self, m: ExchangeMove, wifi: WifiConfig) -> bool {
        match m {
            ExchangeMove::Send(n, kind) => self matches ExchangeStep::Send { stage, id, message }
                && *stage == n && *id == kind && message.tells(kind, wifi),
            ExchangeMove::Receive(n, kind) => self matches ExchangeStep::Receive { stage, id }
                && *stage == n && *id == kind,
            ExchangeMove::Finished => self is Finished,
            ExchangeMove::Failed => self is Failed,
            ExchangeMove::Refused => *self == ExchangeStep::Refused(FrameError::PhoneCannotConnect),
        }
    }
}

/// Whether a message is due from the phone.
pub open spec fn awaits(phase: ExchangePhase) -> bool {
    phase == ExchangePhase::AwaitingInfoRequest || phase == ExchangePhase::AwaitingStartResponse
        || phase == ExchangePhase::AwaitingStatus
}

/// Whether `event` can happen in `phase`. The header of a message says how long its body is.
pub open spec fn exchange_accepts(phase: ExchangePhase, event: ExchangeEvent) -> bool {
    match event {
        ExchangeEvent::Begin => phase == ExchangePhase::New,
        ExchangeEvent::Sent => phase == ExchangePhase::SendingStart || phase
            == ExchangePhase::SendingInfo,
        ExchangeEvent::Received(header, body) => awaits(phase) && header.len == body@.len()
            && header.len <= 0xffff,
        ExchangeEvent::Failed => awaits(phase) || phase == ExchangePhase::SendingStart || phase
            == ExchangePhase::SendingInfo,
    }
}

/// What follows an event. The first stage that fails ends the exchange.
pub open spec fn exchange_after(phase: ExchangePhase, event: ExchangeEvent) -> (
    ExchangePhase,
    ExchangeMove,
) {
    match (phase, event) {
        (_, ExchangeEvent::Failed) => (ExchangePhase::Over, ExchangeMove::Failed),
        (ExchangePhase::New, _) => (
            ExchangePhase::SendingStart,
            ExchangeMove::Send(1, MessageId::WifiStartRequest),
        ),
        (ExchangePhase::SendingStart, _) => (
            ExchangePhase::AwaitingInfoRequest,
            ExchangeMove::Receive(2, MessageId::WifiInfoRequest),
        ),
        (ExchangePhase::AwaitingInfoRequest, _) => (
            ExchangePhase::SendingInfo,
            ExchangeMove::Send(3, MessageId::WifiInfoResponse),
        ),
        (ExchangePhase::SendingInfo, _) => (
            ExchangePhase::AwaitingStartResponse,
            ExchangeMove::Receive(4, MessageId::WifiStartResponse),
        ),
        (ExchangePhase::AwaitingStartResponse, _) => (
            ExchangePhase::AwaitingStatus,
            ExchangeMove::Receive(STAGES, MessageId::WifiConnectStatus),
        ),
        (ExchangePhase::AwaitingStatus, ExchangeEvent::Received(_, body)) if reports_failure(
            MessageId::WifiConnectStatus,
            body@,
        ) => (ExchangePhase::Over, ExchangeMove::Refused),
        _ => (ExchangePhase::Over, ExchangeMove::Finished),
    }
}

/// Takes what happened and says what the exchange does next.
pub fn send_params(
    wifi_config: &WifiConfig,
    phase: &mut ExchangePhase,
    event: ExchangeEvent,
) -> (step: ExchangeStep)
    requires
        exchange_accepts(*old(phase), event),
    ensures
        *final(phase) == exchange_after(*old(phase), event).0,
        step.makes(exchange_after(*old(phase), event).1, *wifi_config),
{
    let refused: Option<FrameError> = match event {
        ExchangeEvent::Failed => {
            *phase = ExchangePhase::Over;
            return ExchangeStep::Failed;
        },
        ExchangeEvent::Received(header, body) => {
            let due: MessageId = match *phase {
                ExchangePhase::AwaitingInfoRequest => MessageId::WifiInfoRequest,
                ExchangePhase::AwaitingStartResponse => MessageId::WifiStartResponse,
                _ => MessageId::WifiConnectStatus,
            };
            match read_message(due, &header, &body) {
                Ok(_) => None,
                Err(e) => Some(e),
            }
        },
        _ => None,
    };
    match *phase {
        ExchangePhase::New => {
            *phase = ExchangePhase::SendingStart;
            ExchangeStep::Send {
                stage: 1,
                id: MessageId::WifiStartRequest,
                message: Outgoing::WifiStart {
                    ip_address: wifi_config.ip_addr.clone(),
                    port: wifi_config.port,
                },
            }
        },
        ExchangePhase::SendingStart => {
            *phase = ExchangePhase::AwaitingInfoRequest;
            ExchangeStep::Receive { stage: 2, id: MessageId::WifiInfoRequest }
        },
        ExchangePhase::AwaitingInfoRequest => {
            *phase = ExchangePhase::SendingInfo;
            ExchangeStep::Send {
                stage: 3,
                id: MessageId::WifiInfoResponse,
                message: Outgoing::WifiInfo {
                    ssid: wifi_config.ssid.clone(),
                    key: wifi_config.wpa_key.clone(),
                    bssid: wifi_config.bssid.clone(),
                    security_mode: SecurityMode::Wpa2Personal,
                    access_point_type: AccessPointType::Dynamic,
                },
            }
        },
        ExchangePhase::SendingInfo => {
            *phase = ExchangePhase::AwaitingStartResponse;
            ExchangeStep::Receive { stage: 4, id: MessageId::WifiStartResponse }
        },
        ExchangePhase::AwaitingStartResponse => {
            *phase = ExchangePhase::AwaitingStatus;
            ExchangeStep::Receive { stage: STAGES, id: MessageId::WifiConnectStatus }
        },
        _ => {
            *phase = ExchangePhase::Over;
            match refused {
                Some(e) => ExchangeStep::Refused(e),
                None => ExchangeStep::Finished,
            }
        },
    }
}

/// Where an exchange stands after these events.
pub open spec fn exchange_phase(events: Seq<ExchangeEvent>) -> ExchangePhase
    decreases events.len(),
{
    if events.len() == 0 {
        ExchangePhase::New
    } else {
        exchange_after(exchange_phase(events.drop_last()), events.last()).0
    }
}

/// Whether these events can happen one after the other in an exchange.
pub open spec fn exchange_can_run(events: Seq<ExchangeEvent>) -> bool
    decreases events.len(),
{
    events.len() == 0 || (exchange_can_run(events.drop_last()) && exchange_accepts(
        exchange_phase(events.drop_last()),
        events.last(),
    ))
}

/// What an exchange asks for after the last of these events.
pub open spec fn exchange_move(events: Seq<ExchangeEvent>) -> ExchangeMove
    recommends
        events.len() > 0,
{
    exchange_after(exchange_phase(events.drop_last()), events.last()).1
}

/// Neither the name nor the key of the network is sent before the phone has answered the first
/// message: whenever an exchange sends them, what happened is that it began, that the first message
/// was sent, and that a message was received in full.
pub proof fn law_credentials_follow_the_first_reply(events: Seq<ExchangeEvent>)
    requires
        events.len() > 0,
        exchange_can_run(events),
        exchange_move(events) matches ExchangeMove::Send(_, id) && id
            == MessageId::WifiInfoResponse,
    ensures
        events.len() == 3,
        events[0] is Begin,
        events[1] is Sent,
        events[2] is Received,
{
    reveal_with_fuel(exchange_can_run, 4);
    reveal_with_fuel(exchange_phase, 4);
    let e2 = events.drop_last();
    assert(exchange_phase(e2) == ExchangePhase::AwaitingInfoRequest);
    let e1 = e2.drop_last();
    assert(exchange_phase(e1) == ExchangePhase::SendingStart);
    lemma_new_is_the_beginning(e1.drop_last());
    assert(e2.last() == events[1]);
    assert(e1.last() == events[0]);
}

proof fn lemma_new_is_the_beginning(events: Seq<ExchangeEvent>)
    requires
        exchange_can_run(events),
    ensures
        exchange_phase(events) == ExchangePhase::New <==> events.len() == 0,
{
}

/// A stage that fails ends the exchange with an error, and nothing is sent or awaited after it. A
/// phone that says that it could not join the access point ends it with an error too.
pub proof fn law_first_failure_ends_the_exchange(phase: ExchangePhase, event: ExchangeEvent)
    requires
        exchange_accepts(phase, event),
    ensures
        ({
            let (next, m) = exchange_after(phase, event);
            &&& m is Failed <==> event is Failed
            &&& m is Refused <==> phase == ExchangePhase::AwaitingStatus && (event
                matches ExchangeEvent::Received(_, body) && reports_failure(
                MessageId::WifiConnectStatus,
                body@,
            ))
            &&& next == ExchangePhase::Over <==> m is Failed || m is Refused || m is Finished
            &&& forall|later: ExchangeEvent| !exchange_accepts(ExchangePhase::Over, later)
        }),
{
}

/// An exchange that finishes has gone through all of its stages in order: two messages were sent,
/// and after the first of them one, and after the second two were received.
pub proof fn law_stages_are_in_order(events: Seq<ExchangeEvent>)
    requires
        events.len() > 0,
        exchange_can_run(events),
        exchange_move(events) is Finished,
    ensures
        events.len() == STAGES + 1,
        events[0] is Begin,
        events[1] is Sent,
        events[2] is Received,
        events[3] is Sent,
        events[4] is Received,
        events[5] is Received,
{
    reveal_with_fuel(exchange_can_run, 4);
    let e5 = events.drop_last();
    assert(exchange_phase(e5) == ExchangePhase::AwaitingStatus);
    let e4 = e5.drop_last();
    assert(exchange_phase(e4) == ExchangePhase::AwaitingStartResponse);
    let e3 = e4.drop_last();
    assert(exchange_phase(e3) == ExchangePhase::SendingInfo);
    law_credentials_follow_the_first_reply(e3);
    assert(e5.last() == events[4]);
    assert(e4.last() == events[3]);
    assert(e3[0] == events[0] && e3[1] == events[1] && e3[2] == events[2]);
}

/// When each message is sent or waited for, with its stage and its kind, and when the exchange has
/// succeeded: once the phone has sent its status, unless the second byte of that is not zero.
pub proof fn law_when_each_stage_comes(phase: ExchangePhase, event: ExchangeEvent)
    requires
        exchange_accepts(phase, event),
    ensures
        ({
            let (next, m) = exchange_after(phase, event);
            &&& m == ExchangeMove::Send(1, MessageId::WifiStartRequest) <==> phase
                == ExchangePhase::New
            &&& m == ExchangeMove::Receive(2, MessageId::WifiInfoRequest) <==> phase
                == ExchangePhase::SendingStart && event is Sent
            &&& m == ExchangeMove::Send(3, MessageId::WifiInfoResponse) <==> phase
                == ExchangePhase::AwaitingInfoRequest && event is Received
            &&& m == ExchangeMove::Receive(4, MessageId::WifiStartResponse) <==> phase
                == ExchangePhase::SendingInfo && event is Sent
            &&& m == ExchangeMove::Receive(5, MessageId::WifiConnectStatus) <==> phase
                == ExchangePhase::AwaitingStartResponse && event is Received
            &&& m is Finished <==> phase == ExchangePhase::AwaitingStatus && (event
                matches ExchangeEvent::Received(_, body) && (body@.len() < 2 || body@[1] == 0))
            &&& m is Refused <==> phase == ExchangePhase::AwaitingStatus && (event
                matches ExchangeEvent::Received(_, body) && body@.len() >= 2 && body@[1] != 0)
            &&& m is Failed <==> event is Failed
        }),
{
}

/// An exchange stands where its last move says.
pub proof fn law_exchange_stands_where_its_move_says(phase: ExchangePhase, event: ExchangeEvent)
    requires
        exchange_accepts(phase, event),
    ensures
        ({
            let (next, m) = exchange_after(phase, event);
            next == match m {
                ExchangeMove::Send(stage, _) => if stage == 1 {
                    ExchangePhase::SendingStart
                } else {
                    ExchangePhase::SendingInfo
                },
                ExchangeMove::Receive(stage, _) => if stage == 2 {
                    ExchangePhase::AwaitingInfoRequest
                } else if stage == 4 {
                    ExchangePhase::AwaitingStartResponse
                } else {
                    ExchangePhase::AwaitingStatus
                },
                _ => ExchangePhase::Over,
            }
        }),
{
}

/// The first message tells the phone the address and the port at which the proxy listens, and
/// nothing else.
pub proof fn law_first_message_tells_where_the_proxy_listens(
    step: ExchangeStep,
    stage: u8,
    wifi: WifiConfig,
)
    requires
        step.makes(ExchangeMove::Send(stage, MessageId::WifiStartRequest), wifi),
    ensures
        step matches ExchangeStep::Send { stage: n, id, message } && n == stage && id
            == MessageId::WifiStartRequest && (message matches Outgoing::WifiStart {
            ip_address,
            port,
        } && ip_address@ == wifi.ip_addr@ && port == wifi.port),
{
}

/// The second message tells the phone the name, the key and the hardware address of the access
/// point, each in its own field.
pub proof fn law_second_message_tells_how_to_join(
    step: ExchangeStep,
    stage: u8,
    wifi: WifiConfig,
)
    requires
        step.makes(ExchangeMove::Send(stage, MessageId::WifiInfoResponse), wifi),
    ensures
        step matches ExchangeStep::Send { stage: n, id, message } && n == stage && id
            == MessageId::WifiInfoResponse && (message matches Outgoing::WifiInfo {
            ssid,
            key,
            bssid,
            security_mode,
            access_point_type,
        } && ssid@ == wifi.ssid@ && key@ == wifi.wpa_key@ && bssid@ == wifi.bssid@ && security_mode
            == SecurityMode::Wpa2Personal && access_point_type == AccessPointType::Dynamic),
{
}

/// A step makes the move that it is named after, and no other.
pub proof fn law_step_makes_one_move(step: ExchangeStep, m: ExchangeMove, wifi: WifiConfig)
    requires
        step.makes(m, wifi),
    ensures
        match m {
            ExchangeMove::Send(n, kind) => step matches ExchangeStep::Send { stage, id, message }
                && stage == n && id == kind,
            ExchangeMove::Receive(n, kind) => step matches ExchangeStep::Receive { stage, id }
                && stage == n && id == kind,
            ExchangeMove::Finished => step is Finished,
            ExchangeMove::Failed => step is Failed,
            ExchangeMove::Refused => step matches ExchangeStep::Refused(e) && e
                == FrameError::PhoneCannotConnect,
        },
{
}

/// What can happen in an exchange: what is sent can be sent or fail, and what is waited for can
/// come, with a body as long as its header says, or fail.
pub proof fn law_what_can_happen_in_an_exchange(phase: ExchangePhase, event: ExchangeEvent)
    ensures
        ({
            let sends = phase == ExchangePhase::SendingStart || phase == ExchangePhase::SendingInfo;
            let waits = phase == ExchangePhase::AwaitingInfoRequest || phase
                == ExchangePhase::AwaitingStartResponse || phase == ExchangePhase::AwaitingStatus;
            match event {
                ExchangeEvent::Begin => exchange_accepts(phase, event) <==> phase
                    == ExchangePhase::New,
                ExchangeEvent::Sent => exchange_accepts(phase, event) <==> sends,
                ExchangeEvent::Received(header, body) => exchange_accepts(phase, event) <==> waits
                    && header.len == body@.len() && body@.len() <= 0xffff,
                ExchangeEvent::Failed => exchange_accepts(phase, event) <==> sends || waits,
            }
        }),
{
}

} // verus!

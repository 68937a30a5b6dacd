//! Carrying data between a companion application on the phone and servers of the proxy.
//!
//! The phone does not accept that others connect to the servers of the proxy directly, so the
//! proxy connects to the phone and to its own server and joins the two connections.

use vstd::prelude::*;
use crate::text::{decimal, decimal_text, law_decimal_stands_for_its_number, numeral};

verus! {

/// The ports of the companion application, for the web server, its sockets, and updates.
pub const COMP_APP_TCP_PORT: u16 = 9999;

pub const COMP_APP_TCP_PORT_WS: u16 = 9998;

pub const COMP_APP_TCP_PORT_SWUPDATE: u16 = 9997;

/// Where the web server of the proxy listens.
pub const WEB_SERVER: &'static str = "127.0.0.1:80";

/// Where the update server of the proxy listens.
pub const UPDATE_SERVER: &'static str = "127.0.0.1:8080";

/// How long a bridge tries to connect, in seconds.
pub const BRIDGE_CONNECT_TIMEOUT_SECS: u64 = 3;

/// How long a bridge rests before it tries again, in seconds.
pub const BRIDGE_REST_SECS: u64 = 1;

/// A host and a port, with a colon between them.
pub open spec fn host_port(host: Seq<char>, port: u16) -> Seq<char> {
    host + ":"@ + decimal(port as nat)
}

/// A host and a port, with a colon between them.
pub fn host_port_text(host: &str, port: u16) -> (s: String)
    ensures
        s@ == host_port(host@, port),
{
    let mut s: String = host.to_owned();
    s.append(":");
    s.append(decimal_text(port as u64).as_str());
    s
}

/// The two ends of a bridge.
#[derive(Debug, Clone)]
pub struct BridgeRoute {
    pub remote: String,
    pub local: String,
}

/// What is done for a client that has just connected.
#[derive(Debug, Clone)]
pub struct CompanionPlan {
    /// Whether the address of the client is kept as that of the companion application.
    pub keep_ip: bool,
    /// The bridges to begin, in order.
    pub routes: Vec<BridgeRoute>,
}

/// Whether a route leads from this port of `ip` to this server.
pub open spec fn leads(route: BridgeRoute, ip: Seq<char>, port: u16, server: &str) -> bool {
    route.remote@ == host_port(ip, port) && route.local@ == server@
}

/// What is done for a client at `ip`: nothing unless it is a phone. The web server is bridged,
/// and the address kept, only for a client on another machine.
pub fn companion_bridges(is_phone: bool, ip: &str, is_loopback: bool) -> (plan: CompanionPlan)
    ensures
        plan.keep_ip <==> is_phone && !is_loopback,
        !is_phone ==> plan.routes@.len() == 0,
        is_phone && is_loopback ==> {
            &&& plan.routes@.len() == 2
            &&& leads(plan.routes@[0], ip@, COMP_APP_TCP_PORT_WS, WEB_SERVER)
            &&& leads(plan.routes@[1], ip@, COMP_APP_TCP_PORT_SWUPDATE, UPDATE_SERVER)
        },
        is_phone && !is_loopback ==> {
            &&& plan.routes@.len() == 3
            &&& leads(plan.routes@[0], ip@, COMP_APP_TCP_PORT, WEB_SERVER)
            &&& leads(plan.routes@[1], ip@, COMP_APP_TCP_PORT_WS, WEB_SERVER)
            &&& leads(plan.routes@[2], ip@, COMP_APP_TCP_PORT_SWUPDATE, UPDATE_SERVER)
        },
{
    let mut routes: Vec<BridgeRoute> = Vec::new();
    if is_phone {
        if !is_loopback {
            routes.push(
                BridgeRoute {
                    remote: host_port_text(ip, COMP_APP_TCP_PORT),
                    local: WEB_SERVER.to_owned(),
                },
            );
        }
        routes.push(
            BridgeRoute {
                remote: host_port_text(ip, COMP_APP_TCP_PORT_WS),
                local: WEB_SERVER.to_owned(),
            },
        );
        routes.push(
            BridgeRoute {
                remote: host_port_text(ip, COMP_APP_TCP_PORT_SWUPDATE),
                local: UPDATE_SERVER.to_owned(),
            },
        );
    }
    CompanionPlan { keep_ip: is_phone && !is_loopback, routes }
}

/// Where a bridge stands.
#[derive(Debug, Clone, Copy, PartialEq, Eq, Structural)]
pub enum BridgePhase {
    New,
    ConnectingRemote,
    ConnectingLocal,
    Transferring,
    Resting,
    Over,
}

/// What happened to what a bridge asked for.
#[derive(Debug, Clone, Copy, PartialEq, Eq, Structural)]
pub enum BridgeEvent {
    /// The bridge begins.
    Begin,
    /// The session is over.
    Cancelled,
    /// The connection is there.
    Connected,
    /// The connection was refused.
    Refused,
    /// The connection did not come about in time.
    TimedOut,
    /// The transfer ended, because an end closed it.
    Closed,
    /// The transfer ended, because of an error.
    Broken,
    /// The rest is over.
    Rested,
}

/// What a bridge asks for next.
#[derive(Debug, Clone, Copy, PartialEq, Eq, Structural)]
pub enum BridgeStep {
    /// Connect to the phone.
    ConnectRemote,
    /// Connect to the server of the proxy.
    ConnectLocal,
    /// Carry data both ways.
    Transfer,
    /// Rest.
    Rest,
    /// The bridge is over.
    Stop,
}

/// Whether `event` can happen in `phase`.
pub open spec fn bridge_accepts(phase: BridgePhase, event: BridgeEvent) -> bool {
    match phase {
        BridgePhase::New => event == BridgeEvent::Begin,
        BridgePhase::ConnectingRemote | BridgePhase::ConnectingLocal => event
            == BridgeEvent::Cancelled || event == BridgeEvent::Connected || event
            == BridgeEvent::Refused || event == BridgeEvent::TimedOut,
        BridgePhase::Transferring => event == BridgeEvent::Cancelled || event == BridgeEvent::Closed
            || event == BridgeEvent::Broken,
        BridgePhase::Resting => event == BridgeEvent::Cancelled || event == BridgeEvent::Rested,
        BridgePhase::Over => false,
    }
}

/// What follows an event.
pub open spec fn bridge_after(phase: BridgePhase, event: BridgeEvent) -> (BridgePhase, BridgeStep) {
    match (phase, event) {
        (_, BridgeEvent::Cancelled) => (BridgePhase::Over, BridgeStep::Stop),
        (_, BridgeEvent::Begin) | (_, BridgeEvent::Rested) => (
            BridgePhase::ConnectingRemote,
            BridgeStep::ConnectRemote,
        ),
        (BridgePhase::ConnectingRemote, BridgeEvent::Connected) => (
            BridgePhase::ConnectingLocal,
            BridgeStep::ConnectLocal,
        ),
        (_, BridgeEvent::Connected) => (BridgePhase::Transferring, BridgeStep::Transfer),
        _ => (BridgePhase::Resting, BridgeStep::Rest),
    }
}

/// Takes what happened and says what a bridge does next.
pub fn tcp_bridge(phase: &mut BridgePhase, event: BridgeEvent) -> (step: BridgeStep)
    requires
        bridge_accepts(*old(phase), event),
    ensures
        (*final(phase), step) == bridge_after(*old(phase), event),
{
    let (next, step): (BridgePhase, BridgeStep) = match event {
        BridgeEvent::Cancelled => (BridgePhase::Over, BridgeStep::Stop),
        BridgeEvent::Begin | BridgeEvent::Rested => (
            BridgePhase::ConnectingRemote,
            BridgeStep::ConnectRemote,
        ),
        BridgeEvent::Connected => if *phase == BridgePhase::ConnectingRemote {
            (BridgePhase::ConnectingLocal, BridgeStep::ConnectLocal)
        } else {
            (BridgePhase::Transferring, BridgeStep::Transfer)
        },
        _ => (BridgePhase::Resting, BridgeStep::Rest),
    };
    *phase = next;
    step
}

/// A bridge stops exactly when it is cancelled, which can happen wherever it stands; it tries
/// the server of the proxy only with a connection to the phone, carries data only with both,
/// and rests before it tries again.
pub proof fn law_bridge_tries_until_cancelled(phase: BridgePhase, event: BridgeEvent)
    requires
        bridge_accepts(phase, event),
    ensures
        ({
            let (next, step) = bridge_after(phase, event);
            &&& step == BridgeStep::Stop <==> event == BridgeEvent::Cancelled
            &&& next == BridgePhase::Over <==> event == BridgeEvent::Cancelled
            &&& next != BridgePhase::Over ==> bridge_accepts(next, BridgeEvent::Cancelled)
            &&& step == BridgeStep::ConnectLocal <==> phase == BridgePhase::ConnectingRemote && event
                == BridgeEvent::Connected
            &&& step == BridgeStep::Transfer <==> phase == BridgePhase::ConnectingLocal && event
                == BridgeEvent::Connected
            &&& step == BridgeStep::ConnectRemote <==> phase == BridgePhase::New || (phase
                == BridgePhase::Resting && event == BridgeEvent::Rested)
        }),
{
}

/// The ports of one media stream: that of the phone, and that of the proxy.
#[derive(Debug, Clone, Copy, PartialEq, Eq, Structural)]
pub struct MediaTapEndpoint {
    pub port: u16,
    pub local_port: u16,
}

/// A bridge for one media stream, which is tried once.
#[derive(Debug, Clone)]
pub struct MediaBridge {
    pub remote_addr: String,
    pub local_addr: String,
    pub phase: BridgePhase,
}

/// What became of a bridge for a media stream.
#[derive(Debug, Clone)]
pub enum MediaStep {
    /// Connect to this address of the phone.
    ConnectRemote(String),
    /// Connect to this address of the proxy.
    ConnectLocal(String),
    /// Carry data both ways.
    Transfer,
    /// The bridge is over: an end closed it.
    Finished,
    /// The bridge is over, with the error that was just met.
    Failed,
    /// The bridge is over, with an error of its own.
    TimedOut(String),
}

/// What becomes of a bridge for a media stream, without the texts.
#[derive(Debug, Clone, Copy, PartialEq, Eq, Structural)]
pub enum MediaMove {
    ConnectRemote,
    ConnectLocal,
    Transfer,
    Finished,
    Failed,
    TimedOut,
}

impl MediaStep {
    /// Whether this step makes the move `m` of `bridge`, where `cause` is the text of the error if
    /// one was met.
    pub open spec fn makes(&self, m: MediaMove, bridge: MediaBridge, cause: Seq<char>) -> bool {
        match m {
            MediaMove::ConnectRemote => self matches MediaStep::ConnectRemote(a) && a@
                == bridge.remote_addr@,
            MediaMove::ConnectLocal => self matches MediaStep::ConnectLocal(a) && a@
                == bridge.local_addr@,
            MediaMove::Transfer => self is Transfer,
            MediaMove::Finished => self is Finished,
            MediaMove::Failed => self is Failed,
            MediaMove::TimedOut => self matches MediaStep::TimedOut(text) && text@ == (
            if bridge.phase == BridgePhase::ConnectingRemote {
                media_timeout_message("remote", bridge.remote_addr@, cause)
            } else {
                media_timeout_message("local", bridge.local_addr@, cause)
            }),
        }
    }
}

/// The text of the error when a connection does not come about in time.
pub open spec fn media_timeout_message(side: &str, address: Seq<char>, cause: Seq<char>) -> Seq<char> {
    "media reverse bridge timeout connecting "@ + side@ + " "@ + address + ": "@ + cause
}

fn timeout_message(side: &str, address: &str, cause: &str) -> (s: String)
    ensures
        s@ == media_timeout_message(side, address@, cause@),
{
    let mut s: String = "media reverse bridge timeout connecting ".to_owned();
    s.append(side);
    s.append(" ");
    s.append(address);
    s.append(": ");
    s.append(cause);
    s
}

impl MediaBridge {
    /// A bridge for the stream `endpoint` of the phone at `android_ip`.
    pub fn new(android_ip: &str, endpoint: &MediaTapEndpoint) -> (b: MediaBridge)
        ensures
            b.remote_addr@ == host_port(android_ip@, endpoint.port),
            b.local_addr@ == host_port("127.0.0.1"@, endpoint.local_port),
            b.phase == BridgePhase::New,
    {
        MediaBridge {
            remote_addr: host_port_text(android_ip, endpoint.port),
            local_addr: host_port_text("127.0.0.1", endpoint.local_port),
            phase: BridgePhase::New,
        }
    }

    /// Whether `event` can happen here. The bridge is not cancelled from outside.
    pub open spec fn accepts(&self, event: BridgeEvent) -> bool {
        bridge_accepts(self.phase, event) && event != BridgeEvent::Cancelled && self.phase
            != BridgePhase::Resting
    }

    /// What follows an event, without the texts.
    pub open spec fn after(&self, event: BridgeEvent) -> (BridgePhase, MediaMove) {
        match bridge_after(self.phase, event) {
            (next, BridgeStep::ConnectRemote) => (next, MediaMove::ConnectRemote),
            (next, BridgeStep::ConnectLocal) => (next, MediaMove::ConnectLocal),
            (next, BridgeStep::Transfer) => (next, MediaMove::Transfer),
            _ => (
                BridgePhase::Over,
                match event {
                    BridgeEvent::Closed => MediaMove::Finished,
                    BridgeEvent::TimedOut => MediaMove::TimedOut,
                    _ => MediaMove::Failed,
                },
            ),
        }
    }

    /// Takes what happened, with the text of the error if it is one, and says what to do next.
    pub fn media_tap_reverse_bridge_once(&mut self, event: BridgeEvent, cause: &str) -> (step: MediaStep)
        requires
            old(self).accepts(event),
        ensures
            final(self).remote_addr == old(self).remote_addr,
            final(self).local_addr == old(self).local_addr,
            final(self).phase == old(self).after(event).0,
            step.makes(old(self).after(event).1, *old(self), cause@),
            match (old(self).phase, event) {
                (BridgePhase::New, _) => {
                    &&& final(self).phase == BridgePhase::ConnectingRemote
                    &&& step matches MediaStep::ConnectRemote(a) && a@ == old(self).remote_addr@
                },
                (BridgePhase::ConnectingRemote, BridgeEvent::Connected) => {
                    &&& final(self).phase == BridgePhase::ConnectingLocal
                    &&& step matches MediaStep::ConnectLocal(a) && a@ == old(self).local_addr@
                },
                (_, BridgeEvent::Connected) => {
                    &&& final(self).phase == BridgePhase::Transferring
                    &&& step is Transfer
                },
                (BridgePhase::ConnectingRemote, BridgeEvent::TimedOut) => {
                    &&& final(self).phase == BridgePhase::Over
                    &&& step matches MediaStep::TimedOut(m) && m@ == media_timeout_message(
                        "remote",
                        old(self).remote_addr@,
                        cause@,
                    )
                },
                (_, BridgeEvent::TimedOut) => {
                    &&& final(self).phase == BridgePhase::Over
                    &&& step matches MediaStep::TimedOut(m) && m@ == media_timeout_message(
                        "local",
                        old(self).local_addr@,
                        cause@,
                    )
                },
                (_, BridgeEvent::Closed) => {
                    &&& final(self).phase == BridgePhase::Over
                    &&& step is Finished
                },
                _ => {
                    &&& final(self).phase == BridgePhase::Over
                    &&& step is Failed
                },
            },
    {
        match event {
            BridgeEvent::Begin => {
                self.phase = BridgePhase::ConnectingRemote;
                MediaStep::ConnectRemote(self.remote_addr.clone())
            },
            BridgeEvent::Connected => if self.phase == BridgePhase::ConnectingRemote {
                self.phase = BridgePhase::ConnectingLocal;
                MediaStep::ConnectLocal(self.local_addr.clone())
            } else {
                self.phase = BridgePhase::Transferring;
                MediaStep::Transfer
            },
            BridgeEvent::TimedOut => {
                let message: String = if self.phase == BridgePhase::ConnectingRemote {
                    timeout_message("remote", self.remote_addr.as_str(), cause)
                } else {
                    timeout_message("local", self.local_addr.as_str(), cause)
                };
                self.phase = BridgePhase::Over;
                MediaStep::TimedOut(message)
            },
            BridgeEvent::Closed => {
                self.phase = BridgePhase::Over;
                MediaStep::Finished
            },
            _ => {
                self.phase = BridgePhase::Over;
                MediaStep::Failed
            },
        }
    }
}

/// A bridge rests exactly after what it tried came to nothing or an end closed it, and stands where
/// its step says.
pub proof fn law_bridge_stands_where_its_step_says(phase: BridgePhase, event: BridgeEvent)
    requires
        bridge_accepts(phase, event),
    ensures
        ({
            let (next, step) = bridge_after(phase, event);
            &&& step == BridgeStep::Rest <==> event == BridgeEvent::Refused || event
                == BridgeEvent::TimedOut || event == BridgeEvent::Closed || event
                == BridgeEvent::Broken
            &&& next == match step {
                BridgeStep::ConnectRemote => BridgePhase::ConnectingRemote,
                BridgeStep::ConnectLocal => BridgePhase::ConnectingLocal,
                BridgeStep::Transfer => BridgePhase::Transferring,
                BridgeStep::Rest => BridgePhase::Resting,
                BridgeStep::Stop => BridgePhase::Over,
            }
        }),
{
}

/// What can happen to a bridge: it is cancelled at any time between its beginning and its end;
/// otherwise it is what became of what it tried.
pub proof fn law_what_can_happen_to_a_bridge(phase: BridgePhase, event: BridgeEvent)
    ensures
        event == BridgeEvent::Begin ==> (bridge_accepts(phase, event) <==> phase
            == BridgePhase::New),
        event == BridgeEvent::Cancelled ==> (bridge_accepts(phase, event) <==> phase
            != BridgePhase::New && phase != BridgePhase::Over),
        event == BridgeEvent::Connected || event == BridgeEvent::Refused || event
            == BridgeEvent::TimedOut ==> (bridge_accepts(phase, event) <==> phase
            == BridgePhase::ConnectingRemote || phase == BridgePhase::ConnectingLocal),
        event == BridgeEvent::Closed || event == BridgeEvent::Broken ==> (bridge_accepts(
            phase,
            event,
        ) <==> phase == BridgePhase::Transferring),
        event == BridgeEvent::Rested ==> (bridge_accepts(phase, event) <==> phase
            == BridgePhase::Resting),
{
}

/// A host and a port can be read back from their text: the host, a colon, and the usual way to
/// write the port.
pub proof fn law_host_and_port_read_back(host: Seq<char>, port: u16)
    ensures
        ({
            let s = host_port(host, port);
            let n = host.len() as int;
            &&& s.len() > n
            &&& s.take(n) == host
            &&& s[n] == ':'
            &&& numeral(s.skip(n + 1), port as nat)
        }),
{
    reveal_strlit(":");
    let s = host_port(host, port);
    let n = host.len() as int;
    assert(s.take(n) == host);
    assert(s.skip(n + 1) == decimal(port as nat));
    law_decimal_stands_for_its_number(port as nat);
}

/// A route leads from the port of the phone to the server: its text for the phone is that of the
/// host and the port, and the other is that of the server.
pub proof fn law_route_names_its_ends(route: BridgeRoute, ip: Seq<char>, port: u16, server: &str)
    requires
        leads(route, ip, port, server),
    ensures
        ({
            let n = ip.len() as int;
            &&& route.remote@.len() > n
            &&& route.remote@.take(n) == ip
            &&& route.remote@[n] == ':'
            &&& numeral(route.remote@.skip(n + 1), port as nat)
            &&& route.local@ == server@
        }),
{
    law_host_and_port_read_back(ip, port);
}

/// The text of a connection that did not come about in time ends with the address and the cause,
/// and names the side in front of them.
pub proof fn law_timeout_names_address_and_cause(
    side: &str,
    address: Seq<char>,
    cause: Seq<char>,
)
    ensures
        ({
            let m = media_timeout_message(side, address, cause);
            let c = m.len() - cause.len();
            let a = c - 2 - address.len();
            let s = a - 1 - side@.len();
            &&& s == 40
            &&& m.skip(c) == cause
            &&& m.subrange(a, c - 2) == address
            &&& m.subrange(s, a - 1) == side@
        }),
{
    reveal_strlit("media reverse bridge timeout connecting ");
    reveal_strlit(" ");
    reveal_strlit(": ");
    let m = media_timeout_message(side, address, cause);
    let c = m.len() - cause.len();
    let a = c - 2 - address.len();
    assert(m.skip(c) == cause);
    assert(m.subrange(a, c - 2) == address);
    assert(m.subrange(a - 1 - side@.len(), a - 1) == side@);
}

/// Bridges are begun only for a phone. It gets those to the sockets and to the update server in any
/// case, and in front of them that to the web server exactly if it is on another machine, which is
/// also when its address is kept.
pub proof fn law_bridges_for_a_phone(
    is_phone: bool,
    ip: &str,
    is_loopback: bool,
    plan: CompanionPlan,
)
    requires
        call_ensures(companion_bridges, (is_phone, ip, is_loopback), plan),
    ensures
        ({
            let n = plan.routes@.len() as int;
            &&& n == if !is_phone {
                0int
            } else if is_loopback {
                2
            } else {
                3
            }
            &&& plan.keep_ip <==> n == 3
            &&& n > 0 ==> leads(plan.routes@[n - 1], ip@, 9997, "127.0.0.1:8080")
            &&& n > 0 ==> leads(plan.routes@[n - 2], ip@, 9998, "127.0.0.1:80")
            &&& n == 3 ==> leads(plan.routes@[0], ip@, 9999, "127.0.0.1:80")
        }),
{
}

/// A bridge for a media stream joins the port of the phone to the port of the proxy on the same
/// machine.
pub proof fn law_media_bridge_names_its_ends(
    android_ip: &str,
    endpoint: MediaTapEndpoint,
    b: MediaBridge,
)
    requires
        call_ensures(MediaBridge::new, (android_ip, &endpoint), b),
    ensures
        b.remote_addr@.take(android_ip@.len() as int) == android_ip@,
        b.remote_addr@[android_ip@.len() as int] == ':',
        numeral(b.remote_addr@.skip(android_ip@.len() as int + 1), endpoint.port as nat),
        b.local_addr@.take(10) == "127.0.0.1:"@,
        numeral(b.local_addr@.skip(10), endpoint.local_port as nat),
        b.phase == BridgePhase::New,
{
    law_host_and_port_read_back(android_ip@, endpoint.port);
    reveal_strlit("127.0.0.1");
    reveal_strlit("127.0.0.1:");
    law_host_and_port_read_back("127.0.0.1"@, endpoint.local_port);
    let s = b.local_addr@;
    assert(s.take(9)[8] == s[8]);
    assert forall|i: int| 0 <= i < 9 implies s[i] == "127.0.0.1"@[i] by {
        assert(s.take(9)[i] == s[i]);
    }
    assert(s.take(10) =~= "127.0.0.1:"@);
}

/// A bridge for a media stream is tried once: it connects to the phone, then to the proxy, then
/// carries data, and is over as soon as one of these fails or the data ends. Only a connection can
/// be too late, and only the end of the data is no error.
pub proof fn law_media_bridge_is_tried_once(b: MediaBridge, event: BridgeEvent)
    requires
        b.accepts(event),
    ensures
        ({
            let (next, m) = b.after(event);
            &&& m == MediaMove::ConnectRemote <==> b.phase == BridgePhase::New
            &&& m == MediaMove::ConnectLocal <==> b.phase == BridgePhase::ConnectingRemote && event
                == BridgeEvent::Connected
            &&& m == MediaMove::Transfer <==> b.phase == BridgePhase::ConnectingLocal && event
                == BridgeEvent::Connected
            &&& m == MediaMove::Finished <==> event == BridgeEvent::Closed
            &&& m == MediaMove::TimedOut <==> event == BridgeEvent::TimedOut
            &&& m == MediaMove::Failed <==> event == BridgeEvent::Refused || event
                == BridgeEvent::Broken
            &&& next == match m {
                MediaMove::ConnectRemote => BridgePhase::ConnectingRemote,
                MediaMove::ConnectLocal => BridgePhase::ConnectingLocal,
                MediaMove::Transfer => BridgePhase::Transferring,
                _ => BridgePhase::Over,
            }
        }),
{
}

/// What a step of such a bridge names: the end that is connected to, and in an error the one that
/// was.
pub proof fn law_media_step_names_its_end(
    step: MediaStep,
    m: MediaMove,
    b: MediaBridge,
    cause: Seq<char>,
)
    requires
        step.makes(m, b, cause),
    ensures
        match m {
            MediaMove::ConnectRemote => step matches MediaStep::ConnectRemote(a) && a@
                == b.remote_addr@,
            MediaMove::ConnectLocal => step matches MediaStep::ConnectLocal(a) && a@
                == b.local_addr@,
            MediaMove::Transfer => step is Transfer,
            MediaMove::Finished => step is Finished,
            MediaMove::Failed => step is Failed,
            MediaMove::TimedOut => step matches MediaStep::TimedOut(text) && {
                let side = if b.phase == BridgePhase::ConnectingRemote {
                    "remote "@ + b.remote_addr@
                } else {
                    "local "@ + b.local_addr@
                };
                text@ == "media reverse bridge timeout connecting "@ + side + ": "@ + cause
            },
        },
{
    if m == MediaMove::TimedOut {
        reveal_strlit("remote");
        reveal_strlit("local");
        reveal_strlit(" ");
        reveal_strlit("remote ");
        reveal_strlit("local ");
        let head = "media reverse bridge timeout connecting "@;
        assert("remote"@ + " "@ =~= "remote "@);
        assert("local"@ + " "@ =~= "local "@);
        assert(media_timeout_message("remote", b.remote_addr@, cause) =~= head + ("remote "@
            + b.remote_addr@) + ": "@ + cause);
        assert(media_timeout_message("local", b.local_addr@, cause) =~= head + ("local "@
            + b.local_addr@) + ": "@ + cause);
    }
}

/// A bridge for a media stream is not cancelled from outside, and does not rest.
pub proof fn law_what_can_happen_to_a_media_bridge(b: MediaBridge, event: BridgeEvent)
    ensures
        b.accepts(event) <==> match b.phase {
            BridgePhase::New => event == BridgeEvent::Begin,
            BridgePhase::ConnectingRemote | BridgePhase::ConnectingLocal => event
                == BridgeEvent::Connected || event == BridgeEvent::Refused || event
                == BridgeEvent::TimedOut,
            BridgePhase::Transferring => event == BridgeEvent::Closed || event
                == BridgeEvent::Broken,
            BridgePhase::Resting | BridgePhase::Over => false,
        },
{
}

} // verus!

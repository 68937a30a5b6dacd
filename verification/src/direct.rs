//! Connecting to a server in place of waiting for a phone.

use vstd::prelude::*;
use crate::outside::{quoted, quoted_text};
use crate::text::{
    blank,
    law_nothing_is_left_of_white_space,
    law_trimming_cuts_the_ends,
    trim,
    trimmed,
    white_space,
};

verus! {

/// How long a client is waited for, and a connection to a server is tried, in seconds.
pub const TCP_CLIENT_TIMEOUT_SECS: u64 = 30;

/// The address of the server to connect to in place of waiting for a phone, if one is
/// configured.
pub fn direct_address(configured: &str) -> (r: Option<String>)
    ensures
        r is None <==> trimmed(configured@).len() == 0,
        r matches Some(a) ==> a@ == trimmed(configured@),
{
    let address: &str = trim(configured);
    if address.unicode_len() == 0 {
        None
    } else {
        Some(address.to_owned())
    }
}

/// Where connecting to a server stands.
#[derive(Debug, Clone, Copy, PartialEq, Eq, Structural)]
pub enum DirectPhase {
    Parsing,
    Connecting,
    Tuning,
    Over,
}

/// What happened while connecting to a server.
#[derive(Debug, Clone, Copy, PartialEq, Eq, Structural)]
pub enum DirectEvent {
    /// It is done.
    Done,
    /// It failed.
    Failed,
    /// It was not done in time.
    TimedOut,
}

/// What follows while connecting to a server.
#[derive(Debug, Clone)]
pub enum DirectStep {
    /// Connect to the address.
    Connect,
    /// Send small segments without delay.
    SetNoDelay,
    /// The connection is there.
    Connected,
    /// There is no connection, because of the error that was just met.
    Failed,
    /// There is no connection, because of this error in the address.
    Invalid(String),
    /// There is no connection in time; this is the error.
    TimedOut(String),
}

/// The error for an address that cannot be read.
pub open spec fn invalid_address_message(address: Seq<char>, cause: Seq<char>) -> Seq<char> {
    "invalid aa_server_tcp_addr "@ + quoted(address) + ": "@ + cause
}

/// The error for a server that does not answer in time.
pub open spec fn no_answer_message(address: Seq<char>, cause: Seq<char>) -> Seq<char> {
    "MD direct TCP connect timeout to "@ + address + ": "@ + cause
}

/// What follows while connecting to a server, without the texts.
#[derive(Debug, Clone, Copy, PartialEq, Eq, Structural)]
pub enum DirectMove {
    Connect,
    SetNoDelay,
    Connected,
    Failed,
    Invalid,
    TimedOut,
}

impl DirectStep {
    /// Whether this step makes the move `m` towards the server at `address`, where `cause` is the
    /// text of the error if one was met.
    pub open spec fn makes(&self, m: DirectMove, address: Seq<char>, cause: Seq<char>) -> bool {
        match m {
            DirectMove::Connect => self is Connect,
            DirectMove::SetNoDelay => self is SetNoDelay,
            DirectMove::Connected => self is Connected,
            DirectMove::Failed => self is Failed,
            DirectMove::Invalid => self matches DirectStep::Invalid(text) && text@
                == invalid_address_message(address, cause),
            DirectMove::TimedOut => self matches DirectStep::TimedOut(text) && text@
                == no_answer_message(address, cause),
        }
    }
}

/// What follows an event.
pub open spec fn direct_after(phase: DirectPhase, event: DirectEvent) -> (DirectPhase, DirectMove) {
    match (phase, event) {
        (DirectPhase::Parsing, DirectEvent::Done) => (DirectPhase::Connecting, DirectMove::Connect),
        (DirectPhase::Parsing, _) => (DirectPhase::Over, DirectMove::Invalid),
        (DirectPhase::Connecting, DirectEvent::Done) => (
            DirectPhase::Tuning,
            DirectMove::SetNoDelay,
        ),
        (DirectPhase::Connecting, DirectEvent::TimedOut) => (
            DirectPhase::Over,
            DirectMove::TimedOut,
        ),
        (_, DirectEvent::Done) => (DirectPhase::Over, DirectMove::Connected),
        _ => (DirectPhase::Over, DirectMove::Failed),
    }
}

/// Whether `event` can happen in `phase`: only connecting is limited in time.
pub open spec fn direct_accepts(phase: DirectPhase, event: DirectEvent) -> bool {
    phase != DirectPhase::Over && (event == DirectEvent::TimedOut ==> phase
        == DirectPhase::Connecting)
}

/// Takes what happened while connecting to the server at `address`, with the text of the error if
/// it is one, and says what follows. The first thing to happen is that the address was read, or
/// not.
pub fn tcp_connect_to_aa_server(
    phase: &mut DirectPhase,
    event: DirectEvent,
    address: &str,
    cause: &str,
) -> (step: DirectStep)
    requires
        direct_accepts(*old(phase), event),
    ensures
        *final(phase) == direct_after(*old(phase), event).0,
        step.makes(direct_after(*old(phase), event).1, address@, cause@),
        match (*old(phase), event) {
            (DirectPhase::Parsing, DirectEvent::Done) => *final(phase) == DirectPhase::Connecting
                && step is Connect,
            (DirectPhase::Connecting, DirectEvent::Done) => *final(phase) == DirectPhase::Tuning
                && step is SetNoDelay,
            (_, DirectEvent::Done) => *final(phase) == DirectPhase::Over && step is Connected,
            (_, DirectEvent::TimedOut) => {
                &&& *final(phase) == DirectPhase::Over
                &&& step matches DirectStep::TimedOut(m) && m@ == no_answer_message(address@, cause@)
            },
            (DirectPhase::Parsing, _) => {
                &&& *final(phase) == DirectPhase::Over
                &&& step matches DirectStep::Invalid(m) && m@ == invalid_address_message(
                    address@,
                    cause@,
                )
            },
            _ => *final(phase) == DirectPhase::Over && step is Failed,
        },
{
    match event {
        DirectEvent::Done => match *phase {
            DirectPhase::Parsing => {
                *phase = DirectPhase::Connecting;
                DirectStep::Connect
            },
            DirectPhase::Connecting => {
                *phase = DirectPhase::Tuning;
                DirectStep::SetNoDelay
            },
            _ => {
                *phase = DirectPhase::Over;
                DirectStep::Connected
            },
        },
        DirectEvent::TimedOut => {
            let mut message: String = "MD direct TCP connect timeout to ".to_owned();
            message.append(address);
            message.append(": ");
            message.append(cause);
            *phase = DirectPhase::Over;
            DirectStep::TimedOut(message)
        },
        DirectEvent::Failed => {
            let reading: bool = *phase == DirectPhase::Parsing;
            *phase = DirectPhase::Over;
            if reading {
                let mut message: String = "invalid aa_server_tcp_addr ".to_owned();
                message.append(quoted_text(address).as_str());
                message.append(": ");
                message.append(cause);
                DirectStep::Invalid(message)
            } else {
                DirectStep::Failed
            }
        },
    }
}

/// The error for an address that cannot be read ends with the address in quotes and the cause.
pub proof fn law_invalid_address_is_quoted(address: Seq<char>, cause: Seq<char>)
    ensures
        ({
            let m = invalid_address_message(address, cause);
            let c = m.len() - cause.len();
            &&& c - 2 - quoted(address).len() == 27
            &&& m.skip(c) == cause
            &&& m.subrange(27, c - 2) == quoted(address)
        }),
{
    reveal_strlit("invalid aa_server_tcp_addr ");
    reveal_strlit(": ");
    let m = invalid_address_message(address, cause);
    let c = m.len() - cause.len();
    assert(m.skip(c) == cause);
    assert(m.subrange(27, c - 2) == quoted(address));
}

/// The error for a server that does not answer in time ends with its address and the cause.
pub proof fn law_silent_server_is_named(address: Seq<char>, cause: Seq<char>)
    ensures
        ({
            let m = no_answer_message(address, cause);
            let c = m.len() - cause.len();
            &&& c - 2 - address.len() == 33
            &&& m.skip(c) == cause
            &&& m.subrange(33, c - 2) == address
        }),
{
    reveal_strlit("MD direct TCP connect timeout to ");
    reveal_strlit(": ");
    let m = no_answer_message(address, cause);
    let c = m.len() - cause.len();
    assert(m.skip(c) == cause);
    assert(m.subrange(33, c - 2) == address);
}

/// What can happen while connecting to a server: each thing is done or fails until it is over, and
/// only the connection can be too late.
pub proof fn law_only_connecting_can_be_too_late(phase: DirectPhase, event: DirectEvent)
    ensures
        phase == DirectPhase::Over ==> !direct_accepts(phase, event),
        phase == DirectPhase::Connecting ==> direct_accepts(phase, event),
        phase == DirectPhase::Parsing || phase == DirectPhase::Tuning ==> (direct_accepts(
            phase,
            event,
        ) <==> event != DirectEvent::TimedOut),
{
}

/// There is a server to connect to exactly if its address is more than white space, and the address
/// is what stands between the white space at its ends.
pub proof fn law_server_is_configured(configured: &str, r: Option<String>)
    requires
        call_ensures(direct_address, (configured,), r),
    ensures
        r is None <==> blank(configured@),
        forall|front: Seq<char>, a: Seq<char>, back: Seq<char>|
            #![trigger front + a + back]
            configured@ == front + a + back && blank(front) && blank(back) && a.len() > 0
                && !white_space(a[0]) && !white_space(a.last()) ==> (r matches Some(s) && s@ == a),
{
    law_nothing_is_left_of_white_space(configured@);
    assert forall|front: Seq<char>, a: Seq<char>, back: Seq<char>|
        #![trigger front + a + back]
        configured@ == front + a + back && blank(front) && blank(back) && a.len() > 0
            && !white_space(a[0]) && !white_space(a.last()) implies (r matches Some(s) && s@
        == a) by {
        law_trimming_cuts_the_ends(front, a, back);
    }
}

/// A server is connected to once its address is read, small segments are sent without delay once it
/// is connected, and only then the connection is there. An address that cannot be read, and a server
/// that is too late, have errors of their own.
pub proof fn law_way_to_the_server(phase: DirectPhase, event: DirectEvent)
    requires
        direct_accepts(phase, event),
    ensures
        ({
            let (next, m) = direct_after(phase, event);
            let done = event == DirectEvent::Done;
            &&& m == DirectMove::Connect <==> done && phase == DirectPhase::Parsing
            &&& m == DirectMove::SetNoDelay <==> done && phase == DirectPhase::Connecting
            &&& m == DirectMove::Connected <==> done && phase == DirectPhase::Tuning
            &&& m == DirectMove::Invalid <==> !done && phase == DirectPhase::Parsing
            &&& m == DirectMove::TimedOut <==> event == DirectEvent::TimedOut
            &&& m == DirectMove::Failed <==> event == DirectEvent::Failed && phase
                != DirectPhase::Parsing
            &&& next == match m {
                DirectMove::Connect => DirectPhase::Connecting,
                DirectMove::SetNoDelay => DirectPhase::Tuning,
                _ => DirectPhase::Over,
            }
        }),
{
}

/// The errors of the way to a server name the server and the cause.
pub proof fn law_errors_name_the_server(
    step: DirectStep,
    m: DirectMove,
    address: Seq<char>,
    cause: Seq<char>,
)
    requires
        step.makes(m, address, cause),
    ensures
        match m {
            DirectMove::Connect => step is Connect,
            DirectMove::SetNoDelay => step is SetNoDelay,
            DirectMove::Connected => step is Connected,
            DirectMove::Failed => step is Failed,
            DirectMove::Invalid => step matches DirectStep::Invalid(text) && text@
                == "invalid aa_server_tcp_addr "@ + quoted(address) + ": "@ + cause,
            DirectMove::TimedOut => step matches DirectStep::TimedOut(text) && text@
                == "MD direct TCP connect timeout to "@ + address + ": "@ + cause,
        },
{
}

} // verus!

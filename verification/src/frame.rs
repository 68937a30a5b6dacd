//! The framing of the messages that the phone and the proxy exchange over Bluetooth.
//!
//! A message is a header of four bytes and a body. The header holds the length of the body and
//! the kind of the message, each as two bytes with the more significant byte first.

use vstd::prelude::*;

verus! {

/// Length in bytes of the header in front of every message.
pub const HEADER_LEN: usize = 4;

/// The kinds of messages of the handshake.
#[derive(Debug, Clone, Copy, PartialEq, Eq, Structural)]
pub enum MessageId {
    WifiStartRequest,
    WifiInfoRequest,
    WifiInfoResponse,
    WifiVersionRequest,
    WifiVersionResponse,
    WifiConnectStatus,
    WifiStartResponse,
}

/// The number that stands for a kind of message in a header.
pub open spec fn message_code(id: MessageId) -> u16 {
    match id {
        MessageId::WifiStartRequest => 1,
        MessageId::WifiInfoRequest => 2,
        MessageId::WifiInfoResponse => 3,
        MessageId::WifiVersionRequest => 4,
        MessageId::WifiVersionResponse => 5,
        MessageId::WifiConnectStatus => 6,
        MessageId::WifiStartResponse => 7,
    }
}

impl MessageId {
    /// The number that stands for this kind of message in a header.
    pub fn code(self) -> (n: u16)
        ensures
            n == message_code(self),
    {
        match self {
            MessageId::WifiStartRequest => 1,
            MessageId::WifiInfoRequest => 2,
            MessageId::WifiInfoResponse => 3,
            MessageId::WifiVersionRequest => 4,
            MessageId::WifiVersionResponse => 5,
            MessageId::WifiConnectStatus => 6,
            MessageId::WifiStartResponse => 7,
        }
    }
}

/// The low sixteen bits of `n` as two bytes, the more significant byte first.
pub open spec fn be16(n: int) -> Seq<u8> {
    seq![((n / 256) % 256) as u8, (n % 256) as u8]
}

/// The packet that carries a body of `data` as a message of kind `id`. The length field holds
/// the low sixteen bits of the length of the body.
pub open spec fn packet(id: MessageId, data: Seq<u8>) -> Seq<u8> {
    be16(data.len() as int) + be16(message_code(id) as int) + data
}

/// Frames `data` as a message of kind `id`: the bytes to write to the phone.
pub fn send_message(id: MessageId, data: &Vec<u8>) -> (p: Vec<u8>)
    ensures
        p@ == packet(id, data@),
{
    let mut p: Vec<u8> = Vec::new();
    let n: usize = data.len();
    p.push(((n / 256) % 256) as u8);
    p.push((n % 256) as u8);
    let code: u16 = id.code();
    p.push(((code / 256) % 256) as u8);
    p.push((code % 256) as u8);
    let ghost head = p@;
    let mut i: usize = 0;
    while i < n
        invariant
            i <= n,
            n == data.len(),
            p@ == head + data@.take(i as int),
        decreases n - i,
    {
        p.push(data[i]);
        i += 1;
    }
    p
}

/// What a header says: the length of the body that follows and the kind of the message.
#[derive(Debug, Clone, Copy, PartialEq, Eq, Structural)]
pub struct Header {
    pub len: usize,
    pub message_id: u16,
}

/// What the four bytes of a header say.
pub open spec fn header_of(bytes: Seq<u8>) -> Header {
    Header {
        len: (bytes[0] as int * 256 + bytes[1]) as usize,
        message_id: (bytes[2] as int * 256 + bytes[3]) as u16,
    }
}

/// Reads a header.
pub fn parse_header(bytes: &[u8; 4]) -> (h: Header)
    ensures
        h == header_of(bytes@),
        h.len <= 0xffff,
{
    let len: u16 = bytes[0] as u16 * 256 + bytes[1] as u16;
    let message_id: u16 = bytes[2] as u16 * 256 + bytes[3] as u16;
    Header { len: len as usize, message_id }
}

/// Why a received message ends the handshake.
#[derive(Debug, Clone, Copy, PartialEq, Eq, Structural)]
pub enum FrameError {
    /// The phone reports that it cannot join the access point.
    PhoneCannotConnect,
}

/// The text for a phone that cannot join the access point.
pub const PHONE_CANNOT_CONNECT: &'static str = "phone cannot connect to our WiFi AP...";

impl FrameError {
    /// The text of this error.
    pub fn message(self) -> (s: &'static str)
        ensures
            s@ == PHONE_CANNOT_CONNECT@,
    {
        match self {
            FrameError::PhoneCannotConnect => PHONE_CANNOT_CONNECT,
        }
    }
}

/// Whether a body received where a message of kind `expected` is due reports that the phone
/// cannot join the access point: a connection status whose second byte is not zero.
pub open spec fn reports_failure(expected: MessageId, body: Seq<u8>) -> bool {
    expected == MessageId::WifiConnectStatus && body.len() >= 2 && body[1] != 0
}

/// Judges a received message: `header` and `body` came where a message of kind `expected` was
/// due. The kind named in the header is not held against `expected` (see `kind_matches`).
/// Gives the number of bytes read.
pub fn read_message(
    expected: MessageId,
    header: &Header,
    body: &Vec<u8>,
) -> (r: Result<usize, FrameError>)
    requires
        header.len == body.len(),
        header.len <= 0xffff,
    ensures
        r is Err <==> reports_failure(expected, body@),
        r matches Err(e) ==> e == FrameError::PhoneCannotConnect,
        r matches Ok(n) ==> n == HEADER_LEN + body.len(),
{
    if header.len > 0 {
        if expected == MessageId::WifiConnectStatus && body.len() >= 2 {
            if body[1] != 0 {
                return Err(FrameError::PhoneCannotConnect);
            }
        }
    }
    Ok(HEADER_LEN + header.len)
}

/// Whether the header names the kind of message that was due. A message of another kind is
/// worth a warning and is otherwise taken as if it were the one that was due.
pub fn kind_matches(expected: MessageId, header: &Header) -> (b: bool)
    ensures
        b == (header.message_id == message_code(expected)),
{
    header.message_id == expected.code()
}

/// A receiver reads back from a packet the kind, the length and the body that went into it.
pub proof fn law_packet_reads_back(id: MessageId, data: Seq<u8>)
    requires
        data.len() <= 0xffff,
    ensures
        packet(id, data).len() == HEADER_LEN + data.len(),
        header_of(packet(id, data).take(4)).len == data.len(),
        header_of(packet(id, data).take(4)).message_id == message_code(id),
        packet(id, data).skip(4) == data,
{
    let n = data.len() as int;
    let p = packet(id, data);
    assert(p.take(4)[0] == (n / 256) as u8);
    assert(p.take(4)[1] == (n % 256) as u8);
    assert(p.take(4)[2] == 0u8);
    assert(p.take(4)[3] == message_code(id) as u8);
    assert(p.skip(4) =~= data);
}

/// Whatever the length of the body, the length field of a packet holds its remainder modulo
/// 65536, and the kind of the message is kept.
pub proof fn law_packet_header(id: MessageId, data: Seq<u8>)
    ensures
        header_of(packet(id, data).take(4)).len == data.len() % 0x1_0000,
        header_of(packet(id, data).take(4)).message_id == message_code(id),
{
    let n = data.len() as int;
    let p = packet(id, data);
    assert(p.take(4)[0] == ((n / 256) % 256) as u8);
    assert(p.take(4)[1] == (n % 256) as u8);
    assert(p.take(4)[2] == 0u8);
    assert(p.take(4)[3] == message_code(id) as u8);
    assert(((n / 256) % 256) * 256 + n % 256 == n % 0x1_0000);
}

/// No two kinds of messages share a number.
pub proof fn law_codes_differ(a: MessageId, b: MessageId)
    ensures
        message_code(a) == message_code(b) ==> a == b,
{
}

/// Every header reads back as the two numbers that were written into it.
pub proof fn law_header_reads_back(len: u16, kind: u16)
    ensures
        ({
            let h = header_of(be16(len as int) + be16(kind as int));
            h.len == len && h.message_id == kind
        }),
{
    let bytes = be16(len as int) + be16(kind as int);
    assert(bytes[0] == len as int / 256);
    assert(bytes[1] == len as int % 256);
    assert(bytes[2] == kind as int / 256);
    assert(bytes[3] == kind as int % 256);
}

/// A body reports failure only where the status of the connection is due, and then by its second
/// byte alone: no other byte matters, and neither does how many follow.
pub proof fn law_second_byte_of_the_status_decides(
    expected: MessageId,
    first: u8,
    second: u8,
    rest: Seq<u8>,
)
    ensures
        reports_failure(expected, seq![first, second] + rest) <==> expected
            == MessageId::WifiConnectStatus && second != 0,
        !reports_failure(expected, seq![first]),
        !reports_failure(expected, seq![]),
{
    assert((seq![first, second] + rest)[1] == second);
}

/// A received message is refused exactly if it is the status of the connection and its second byte
/// is not zero, and otherwise as many bytes were read as its header and its body have.
pub proof fn law_only_a_bad_status_is_refused(
    expected: MessageId,
    header: Header,
    body: Vec<u8>,
    r: Result<usize, FrameError>,
)
    requires
        call_ensures(read_message, (expected, &header, &body), r),
        header.len == body@.len(),
        body@.len() <= 0xffff,
    ensures
        r is Err <==> expected == MessageId::WifiConnectStatus && body@.len() >= 2 && body@[1] != 0,
        r matches Ok(n) ==> n == 4 + body@.len(),
{
}

/// What is sent as a message is read by its receiver as a message of the same kind.
pub proof fn law_kind_is_recognised(
    sent: MessageId,
    expected: MessageId,
    data: Vec<u8>,
    p: Vec<u8>,
    b: bool,
)
    requires
        call_ensures(send_message, (sent, &data), p),
        call_ensures(kind_matches, (expected, &header_of(p@.take(4))), b),
    ensures
        b <==> sent == expected,
{
    law_packet_header(sent, data@);
    law_codes_differ(sent, expected);
}

} // verus!

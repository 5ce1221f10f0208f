//! Framed message codec for the Bluetooth credential handshake.
//!
//! On the wire each handshake message is `u16 BE body length | u16 BE
//! message id | body`.  Encoding rejects bodies that do not fit the 16-bit
//! length field; receiving checks the message id against the stage's
//! expected id before any body byte is consumed, and inspects the body of
//! a `WifiConnectStatus` for the phone's join status.

use crate::error::BridgeError;
use crate::wire::{be16, be_to_u16, lemma_u16_be_round_trip, u16_be, u16_to_be};
use vstd::prelude::*;

verus! {

/// Bytes in a handshake frame header: two of length, two of message id.
pub const HEADER_LEN: usize = 4;

/// Largest body a handshake frame can carry: the length field is 16 bits.
pub const MAX_BODY_LEN: usize = 65535;

/// The message ids of the credential handshake, in their wire order.
#[derive(Clone, Copy, Debug, PartialEq, Eq, Structural)]
pub enum MessageId {
    WifiStartRequest,
    WifiInfoRequest,
    WifiInfoResponse,
    WifiVersionRequest,
    WifiVersionResponse,
    WifiConnectStatus,
    WifiStartResponse,
}

/// The 16-bit code a message id takes on the wire.
pub open spec fn message_code(id: MessageId) -> u16 {
    match id {
        MessageId::WifiStartRequest => 1,
        MessageId::WifiInfoRequest => 2,
        MessageId::WifiInfoResponse => 3,
        MessageId::WifiVersionRequest => 4,
        MessageId::WifiVersionResponse => 5,
        MessageId::WifiConnectStatus => 6,
        MessageId::WifiStartResponse => 7,
    }
}

impl MessageId {
    /// The 16-bit code this id takes on the wire.
    pub fn code(self) -> (c: u16)
        ensures
            c == message_code(self),
    {
        match self {
            MessageId::WifiStartRequest => 1,
            MessageId::WifiInfoRequest => 2,
            MessageId::WifiInfoResponse => 3,
            MessageId::WifiVersionRequest => 4,
            MessageId::WifiVersionResponse => 5,
            MessageId::WifiConnectStatus => 6,
            MessageId::WifiStartResponse => 7,
        }
    }
}

/// The header bytes for a body of `len` bytes and message code `code`.
pub open spec fn header_bytes(len: u16, code: u16) -> Seq<u8> {
    u16_be(len) + u16_be(code)
}

/// The full wire form of a handshake message.
pub open spec fn frame_bytes(id: MessageId, body: Seq<u8>) -> Seq<u8>
    recommends
        body.len() <= MAX_BODY_LEN,
{
    header_bytes(body.len() as u16, message_code(id)) + body
}

/// Wire bytes consumed by a whole message with a `len`-byte body.
pub open spec fn message_size(len: u16) -> int {
    HEADER_LEN + len
}

/// Encode one handshake message: header, then body.  A body longer than
/// the 16-bit length field can carry is rejected.
pub fn encode_frame(id: MessageId, body: &Vec<u8>) -> (r: Result<Vec<u8>, BridgeError>)
    ensures
        body@.len() <= MAX_BODY_LEN ==> (r matches Ok(f) && f@ == frame_bytes(id, body@)),
        body@.len() > MAX_BODY_LEN ==> r == Err::<Vec<u8>, BridgeError>(BridgeError::FrameOversize),
{
    if body.len() > MAX_BODY_LEN {
        return Err(BridgeError::FrameOversize);
    }
    let len: u16 = body.len() as u16;
    let code: u16 = id.code();
    let (len_hi, len_lo) = u16_to_be(len);
    let (code_hi, code_lo) = u16_to_be(code);
    let mut f: Vec<u8> = Vec::new();
    f.push(len_hi);
    f.push(len_lo);
    f.push(code_hi);
    f.push(code_lo);
    assert(f@ =~= header_bytes(len, code));
    let mut i: usize = 0;
    while i < body.len()
        invariant
            i <= body@.len(),
            body@.len() <= MAX_BODY_LEN,
            len == body@.len() as u16,
            code == message_code(id),
            f@ == header_bytes(len, code) + body@.subrange(0, i as int),
        decreases body@.len() - i,
    {
        f.push(body[i]);
        assert(body@.subrange(0, i as int).push(body@[i as int]) =~= body@.subrange(
            0,
            i as int + 1,
        ));
        assert(f@ =~= header_bytes(len, code) + body@.subrange(0, i as int + 1));
        i = i + 1;
    }
    assert(body@.subrange(0, body@.len() as int) =~= body@);
    assert(f@ =~= frame_bytes(id, body@));
    Ok(f)
}

/// The two 16-bit values of a received frame header.
#[derive(Clone, Copy, Debug, PartialEq, Eq, Structural)]
pub struct FrameHeader {
    pub body_len: u16,
    pub id_code: u16,
}

/// Parse the four header bytes of a handshake frame.
pub fn parse_frame_header(h: &Vec<u8>) -> (fh: FrameHeader)
    requires
        h@.len() == HEADER_LEN,
    ensures
        fh.body_len == be16(h@[0], h@[1]),
        fh.id_code == be16(h@[2], h@[3]),
{
    FrameHeader { body_len: be_to_u16(h[0], h[1]), id_code: be_to_u16(h[2], h[3]) }
}

/// Check a received message id against the stage's expected id, before
/// any body byte is read.
pub fn check_message_id(expected: MessageId, got_code: u16) -> (r: Result<(), BridgeError>)
    ensures
        r is Ok <==> got_code == message_code(expected),
        got_code != message_code(expected) ==> r == Err::<(), BridgeError>(
            BridgeError::HandshakeProtocolMismatch { got: got_code, expected: message_code(
                expected,
            ) },
        ),
{
    let expected_code = expected.code();
    if got_code == expected_code {
        Ok(())
    } else {
        Err(BridgeError::HandshakeProtocolMismatch { got: got_code, expected: expected_code })
    }
}

/// Whether a received body reports that the phone failed to join the
/// access point: only a `WifiConnectStatus` body of at least two bytes
/// carries a status, and only its second byte decides.
pub open spec fn join_failure(expected: MessageId, body: Seq<u8>) -> bool {
    expected is WifiConnectStatus && body.len() >= 2 && body[1] != 0
}

/// Inspect a received body: a nonzero status byte in a
/// `WifiConnectStatus` fails the handshake; every other body is opaque.
pub fn check_connect_status(expected: MessageId, body: &Vec<u8>) -> (r: Result<(), BridgeError>)
    ensures
        r is Ok <==> !join_failure(expected, body@),
        join_failure(expected, body@) ==> r == Err::<(), BridgeError>(
            BridgeError::PhoneWifiJoinFailed,
        ),
{
    let carries_status = match expected {
        MessageId::WifiConnectStatus => true,
        _ => false,
    };
    if carries_status && body.len() >= 2 {
        if body[1] != 0 {
            return Err(BridgeError::PhoneWifiJoinFailed);
        }
    }
    Ok(())
}

/// What a complete byte stream holds when it carries exactly one
/// handshake message: its id code and its body.
pub open spec fn parse_frame(stream: Seq<u8>) -> Option<(u16, Seq<u8>)> {
    if stream.len() < HEADER_LEN {
        Option::None
    } else {
        let len = be16(stream[0], stream[1]);
        let code = be16(stream[2], stream[3]);
        if stream.len() == message_size(len) {
            Option::Some((code, stream.subrange(HEADER_LEN as int, stream.len() as int)))
        } else {
            Option::None
        }
    }
}

/// Codec round trip: a message encoded from any body that fits the
/// length field parses back to the same id and the same body.
pub proof fn lemma_codec_round_trip(id: MessageId, body: Seq<u8>)
    requires
        body.len() <= MAX_BODY_LEN,
    ensures
        parse_frame(frame_bytes(id, body)) == Option::Some((message_code(id), body)),
{
    let f = frame_bytes(id, body);
    let len = body.len() as u16;
    assert(f.len() == HEADER_LEN + body.len());
    assert(f[0] == u16_be(len)[0] && f[1] == u16_be(len)[1]);
    assert(f[2] == u16_be(message_code(id))[0] && f[3] == u16_be(message_code(id))[1]);
    lemma_u16_be_round_trip(len);
    lemma_u16_be_round_trip(message_code(id));
    assert(f.subrange(HEADER_LEN as int, f.len() as int) =~= body);
}

} // verus!

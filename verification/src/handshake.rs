//! The credential handshake over RFCOMM: five strictly ordered stages.
//!
//! 1. Send `WifiStartRequest` with the host's address and port.
//! 2. Receive `WifiInfoRequest` (opaque body).
//! 3. Send `WifiInfoResponse` with the access point's credentials.
//! 4. Receive `WifiStartResponse`.
//! 5. Receive `WifiConnectStatus`; a nonzero status byte is fatal.
//!
//! The machine here makes every decision of the handshake and produces
//! the exact bytes to send; the caller only moves bytes over the stream
//! and reports what happened.  A frame with the wrong message id fails
//! the handshake before its body is consumed; only a fully completed
//! fifth stage permits signalling that TCP may start.

use crate::codec::{
    check_connect_status, check_message_id, encode_frame, frame_bytes, join_failure, message_code,
    MessageId, MAX_BODY_LEN,
};
use crate::error::BridgeError;
use crate::wire::{bytes_field, push_bytes_field, push_varint_field, varint_field};
use vstd::prelude::*;

verus! {

/// The immutable configuration a session hands the phone: where to
/// connect and how to join the access point.  The strings are carried as
/// their UTF-8 bytes, which is how they go on the wire.
#[derive(Clone, Debug)]
pub struct WifiConfig {
    pub ip_addr: Vec<u8>,
    pub port: u16,
    pub ssid: Vec<u8>,
    pub wpa_key: Vec<u8>,
    pub bssid: Vec<u8>,
}

/// Field tag: `WifiStartRequest.ip_address`, length-delimited field 1.
pub const TAG_START_IP: u8 = 0x0A;

/// Field tag: `WifiStartRequest.port`, varint field 2.
pub const TAG_START_PORT: u8 = 0x10;

/// Field tag: `WifiInfoResponse.ssid`, length-delimited field 1.
pub const TAG_INFO_SSID: u8 = 0x0A;

/// Field tag: `WifiInfoResponse.bssid`, length-delimited field 2.
pub const TAG_INFO_BSSID: u8 = 0x12;

/// Field tag: `WifiInfoResponse.key`, length-delimited field 3.
pub const TAG_INFO_KEY: u8 = 0x1A;

/// Field tag: `WifiInfoResponse.security_mode`, varint field 4.
pub const TAG_INFO_SECURITY: u8 = 0x20;

/// Field tag: `WifiInfoResponse.access_point_type`, varint field 5.
pub const TAG_INFO_AP_TYPE: u8 = 0x28;

/// `security_mode` value sent in every `WifiInfoResponse`: WPA2 personal.
pub const SECURITY_WPA2_PERSONAL: u64 = 8;

/// `access_point_type` value sent in every `WifiInfoResponse`: dynamic.
pub const AP_TYPE_DYNAMIC: u64 = 1;

/// The body of the stage-1 `WifiStartRequest`: the host's address and
/// port, as two schema fields.
pub open spec fn start_request_body(cfg: WifiConfig) -> Seq<u8> {
    bytes_field(TAG_START_IP, cfg.ip_addr@) + varint_field(TAG_START_PORT, cfg.port as nat)
}

/// The body of the stage-3 `WifiInfoResponse`: the access point's
/// credentials, security mode and type, as five schema fields.
pub open spec fn info_response_body(cfg: WifiConfig) -> Seq<u8> {
    bytes_field(TAG_INFO_SSID, cfg.ssid@) + bytes_field(TAG_INFO_BSSID, cfg.bssid@) + bytes_field(
        TAG_INFO_KEY,
        cfg.wpa_key@,
    ) + varint_field(TAG_INFO_SECURITY, SECURITY_WPA2_PERSONAL as nat) + varint_field(
        TAG_INFO_AP_TYPE,
        AP_TYPE_DYNAMIC as nat,
    )
}

/// Build the `WifiStartRequest` body for a configuration.
pub fn build_start_request(cfg: &WifiConfig) -> (b: Vec<u8>)
    ensures
        b@ == start_request_body(*cfg),
{
    let mut b: Vec<u8> = Vec::new();
    push_bytes_field(&mut b, TAG_START_IP, &cfg.ip_addr);
    push_varint_field(&mut b, TAG_START_PORT, cfg.port as u64);
    assert(b@ =~= start_request_body(*cfg));
    b
}

/// Build the `WifiInfoResponse` body for a configuration.
pub fn build_info_response(cfg: &WifiConfig) -> (b: Vec<u8>)
    ensures
        b@ == info_response_body(*cfg),
{
    let mut b: Vec<u8> = Vec::new();
    push_bytes_field(&mut b, TAG_INFO_SSID, &cfg.ssid);
    push_bytes_field(&mut b, TAG_INFO_BSSID, &cfg.bssid);
    push_bytes_field(&mut b, TAG_INFO_KEY, &cfg.wpa_key);
    push_varint_field(&mut b, TAG_INFO_SECURITY, SECURITY_WPA2_PERSONAL);
    push_varint_field(&mut b, TAG_INFO_AP_TYPE, AP_TYPE_DYNAMIC);
    assert(b@ =~= info_response_body(*cfg));
    b
}

/// Where the handshake stands.  The first five variants are the five
/// wire stages; the two terminal variants record how it ended.
#[derive(Clone, Copy, Debug, PartialEq, Eq, Structural)]
pub enum HandshakeStage {
    SendStart,
    AwaitInfoRequest,
    SendInfoResponse,
    AwaitStartResponse,
    AwaitConnectStatus,
    Complete,
    Failed,
}

/// The stage number logged for each wire stage, 1 through 5; the
/// terminal states keep the number of the last wire stage.
pub open spec fn spec_stage_number(s: HandshakeStage) -> u8 {
    match s {
        HandshakeStage::SendStart => 1,
        HandshakeStage::AwaitInfoRequest => 2,
        HandshakeStage::SendInfoResponse => 3,
        HandshakeStage::AwaitStartResponse => 4,
        HandshakeStage::AwaitConnectStatus => 5,
        HandshakeStage::Complete => 5,
        HandshakeStage::Failed => 5,
    }
}

/// How many wire stages the handshake has.
pub const STAGES: u8 = 5;

/// What the caller must do next for the handshake to advance.
pub enum HandshakeAction {
    /// Write these bytes to the stream, then report `on_sent`.
    SendFrame(Vec<u8>),
    /// Read a frame: four header bytes first (report `on_header`), then
    /// exactly the announced body (report `on_body`).
    AwaitFrame(MessageId),
    /// The handshake succeeded: fire the TCP-start signal once and shut
    /// the stream down.
    SignalTcpStart,
    /// The handshake failed: tear down without signalling.
    Abort,
}

/// Whether a stage awaits a frame from the phone.
pub open spec fn awaits_frame(s: HandshakeStage) -> bool {
    s is AwaitInfoRequest || s is AwaitStartResponse || s is AwaitConnectStatus
}

/// Which message id an awaiting stage expects from the phone.
pub open spec fn awaited_id(s: HandshakeStage) -> MessageId
    recommends
        awaits_frame(s),
{
    match s {
        HandshakeStage::AwaitInfoRequest => MessageId::WifiInfoRequest,
        HandshakeStage::AwaitStartResponse => MessageId::WifiStartResponse,
        _ => MessageId::WifiConnectStatus,
    }
}

/// The handshake state machine: the current stage plus the session's
/// Wi-Fi configuration, from which the outbound frames are built.
pub struct HandshakeMachine {
    pub stage: HandshakeStage,
    pub config: WifiConfig,
}

impl HandshakeMachine {
    /// A fresh handshake, ready to send the stage-1 `WifiStartRequest`.
    pub fn new(config: WifiConfig) -> (m: HandshakeMachine)
        ensures
            m.stage is SendStart,
            m.config == config,
    {
        HandshakeMachine { stage: HandshakeStage::SendStart, config }
    }

    /// What to do in the current stage.  Building an outbound frame
    /// fails only when its body does not fit the 16-bit length field.
    pub fn next_action(&self) -> (r: Result<HandshakeAction, BridgeError>)
        ensures
            self.stage is SendStart ==> (if start_request_body(self.config).len() <= MAX_BODY_LEN {
                r matches Ok(HandshakeAction::SendFrame(f)) && f@ == frame_bytes(
                    MessageId::WifiStartRequest,
                    start_request_body(self.config),
                )
            } else {
                r == Err::<HandshakeAction, BridgeError>(BridgeError::FrameOversize)
            }),
            self.stage is SendInfoResponse ==> (if info_response_body(self.config).len()
                <= MAX_BODY_LEN {
                r matches Ok(HandshakeAction::SendFrame(f)) && f@ == frame_bytes(
                    MessageId::WifiInfoResponse,
                    info_response_body(self.config),
                )
            } else {
                r == Err::<HandshakeAction, BridgeError>(BridgeError::FrameOversize)
            }),
            self.stage is AwaitInfoRequest ==> (r matches Ok(HandshakeAction::AwaitFrame(id))
                && id == MessageId::WifiInfoRequest),
            self.stage is AwaitStartResponse ==> (r matches Ok(HandshakeAction::AwaitFrame(id))
                && id == MessageId::WifiStartResponse),
            self.stage is AwaitConnectStatus ==> (r matches Ok(HandshakeAction::AwaitFrame(id))
                && id == MessageId::WifiConnectStatus),
            self.stage is Complete ==> (r matches Ok(a) && a is SignalTcpStart),
            self.stage is Failed ==> (r matches Ok(a) && a is Abort),
    {
        match self.stage {
            HandshakeStage::SendStart => {
                let body = build_start_request(&self.config);
                match encode_frame(MessageId::WifiStartRequest, &body) {
                    Ok(f) => Ok(HandshakeAction::SendFrame(f)),
                    Err(e) => Err(e),
                }
            },
            HandshakeStage::AwaitInfoRequest => Ok(
                HandshakeAction::AwaitFrame(MessageId::WifiInfoRequest),
            ),
            HandshakeStage::SendInfoResponse => {
                let body = build_info_response(&self.config);
                match encode_frame(MessageId::WifiInfoResponse, &body) {
                    Ok(f) => Ok(HandshakeAction::SendFrame(f)),
                    Err(e) => Err(e),
                }
            },
            HandshakeStage::AwaitStartResponse => Ok(
                HandshakeAction::AwaitFrame(MessageId::WifiStartResponse),
            ),
            HandshakeStage::AwaitConnectStatus => Ok(
                HandshakeAction::AwaitFrame(MessageId::WifiConnectStatus),
            ),
            HandshakeStage::Complete => Ok(HandshakeAction::SignalTcpStart),
            HandshakeStage::Failed => Ok(HandshakeAction::Abort),
        }
    }

    /// The caller wrote the whole outbound frame: the handshake advances
    /// to the next stage.
    pub fn on_sent(&mut self)
        requires
            old(self).stage is SendStart || old(self).stage is SendInfoResponse,
        ensures
            final(self).config == old(self).config,
            old(self).stage is SendStart ==> final(self).stage is AwaitInfoRequest,
            old(self).stage is SendInfoResponse ==> final(self).stage is AwaitStartResponse,
    {
        self.stage = match self.stage {
            HandshakeStage::SendStart => HandshakeStage::AwaitInfoRequest,
            _ => HandshakeStage::AwaitStartResponse,
        };
    }

    /// The caller read a frame header.  A message id other than the
    /// stage's expected one fails the handshake here, before any body
    /// byte is consumed.
    pub fn on_header(&mut self, id_code: u16) -> (r: Result<(), BridgeError>)
        requires
            awaits_frame(old(self).stage),
        ensures
            final(self).config == old(self).config,
            id_code == message_code(awaited_id(old(self).stage)) ==> r is Ok && final(self).stage
                == old(self).stage,
            id_code != message_code(awaited_id(old(self).stage)) ==> {
                &&& r == Err::<(), BridgeError>(
                    BridgeError::HandshakeProtocolMismatch {
                        got: id_code,
                        expected: message_code(awaited_id(old(self).stage)),
                    },
                )
                &&& final(self).stage is Failed
            },
    {
        let expected = match self.stage {
            HandshakeStage::AwaitInfoRequest => MessageId::WifiInfoRequest,
            HandshakeStage::AwaitStartResponse => MessageId::WifiStartResponse,
            _ => MessageId::WifiConnectStatus,
        };
        match check_message_id(expected, id_code) {
            Ok(()) => Ok(()),
            Err(e) => {
                self.stage = HandshakeStage::Failed;
                Err(e)
            },
        }
    }

    /// The caller read the announced body of a frame whose header
    /// already matched.  In stage 5 a nonzero status byte fails the
    /// handshake; every other body is opaque and the handshake advances.
    pub fn on_body(&mut self, body: &Vec<u8>) -> (r: Result<(), BridgeError>)
        requires
            awaits_frame(old(self).stage),
        ensures
            final(self).config == old(self).config,
            join_failure(awaited_id(old(self).stage), body@) ==> r == Err::<(), BridgeError>(
                BridgeError::PhoneWifiJoinFailed,
            ) && final(self).stage is Failed,
            !join_failure(awaited_id(old(self).stage), body@) ==> {
                &&& r is Ok
                &&& old(self).stage is AwaitInfoRequest ==> final(self).stage is SendInfoResponse
                &&& old(self).stage is AwaitStartResponse ==> final(self).stage
                    is AwaitConnectStatus
                &&& old(self).stage is AwaitConnectStatus ==> final(self).stage is Complete
            },
    {
        let expected = match self.stage {
            HandshakeStage::AwaitInfoRequest => MessageId::WifiInfoRequest,
            HandshakeStage::AwaitStartResponse => MessageId::WifiStartResponse,
            _ => MessageId::WifiConnectStatus,
        };
        match check_connect_status(expected, body) {
            Ok(_) => {
                self.stage = match self.stage {
                    HandshakeStage::AwaitInfoRequest => HandshakeStage::SendInfoResponse,
                    HandshakeStage::AwaitStartResponse => HandshakeStage::AwaitConnectStatus,
                    _ => HandshakeStage::Complete,
                };
                Ok(())
            },
            Err(e) => {
                self.stage = HandshakeStage::Failed;
                Err(e)
            },
        }
    }

    /// A read or write on the stream failed: the handshake is over.
    pub fn on_io_error(&mut self)
        ensures
            final(self).config == old(self).config,
            final(self).stage is Failed,
    {
        self.stage = HandshakeStage::Failed;
    }

    /// The stage number for logging, 1 through 5.
    pub fn stage_number(&self) -> (n: u8)
        ensures
            n == spec_stage_number(self.stage),
    {
        match self.stage {
            HandshakeStage::SendStart => 1,
            HandshakeStage::AwaitInfoRequest => 2,
            HandshakeStage::SendInfoResponse => 3,
            HandshakeStage::AwaitStartResponse => 4,
            HandshakeStage::AwaitConnectStatus => 5,
            HandshakeStage::Complete => 5,
            HandshakeStage::Failed => 5,
        }
    }
}

} // verus!

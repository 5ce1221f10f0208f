use vstd::prelude::*;

verus! {

/// Everything that can end a session: Bluetooth bring-up, the credential
/// handshake, and the framed proxy all surface one of these to the
/// supervisor, which restarts the session.
#[derive(Clone, Copy, Debug, PartialEq, Eq, Structural)]
pub enum BridgeError {
    /// No usable Bluetooth adapter.
    AdapterUnavailable,
    /// The BLE advertisement could not be published.
    AdvertiseFailed,
    /// The RFCOMM profile could not be registered.
    ProfileRegisterFailed,
    /// No RFCOMM client connected within the accept timeout.
    AcceptTimeout,
    /// A handshake frame arrived with the wrong message id for its stage.
    HandshakeProtocolMismatch { got: u16, expected: u16 },
    /// The phone reported a nonzero Wi-Fi connect status.
    PhoneWifiJoinFailed,
    /// An endpoint read or write failed, or a stream ended mid-frame.
    EndpointIo,
    /// A frame's declared size does not fit the reader's buffer, or a
    /// handshake body does not fit its 16-bit length field.
    FrameOversize,
    /// Neither direction moved any bytes for a whole stall window.
    TransferStall,
    /// Joining a worker task failed.
    TaskJoinFailed,
}

} // verus!

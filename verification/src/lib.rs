//! Wireless-to-wired bridge for a phone-to-car projection protocol.
//!
//! A phone that would normally project over USB is attached over Wi-Fi
//! instead.  The bridge drives a short Bluetooth handshake that hands the
//! phone the Wi-Fi credentials, then shuttles framed projection traffic
//! between the mobile-device (MD) side and the head-unit (HU) side.
//!
//! This crate holds the verified core: the handshake message codec and
//! stage machine, projection-frame parsing and serialization, per-direction
//! byte accounting, stall detection, and the session supervisor's lifecycle
//! decisions.  The unverified shell around it performs the actual Bluetooth,
//! TCP and USB I/O and feeds plain values in and out.

use vstd::prelude::*;

pub mod bluetooth;
pub mod codec;
pub mod error;
pub mod frame;
pub mod handshake;
pub mod monitor;
pub mod proxy;
pub mod supervisor;
pub mod wire;

verus! {

/// Port on which the bridge listens for the mobile device's TCP connection.
pub const TCP_SERVER_PORT: u16 = 5288;

/// Port on which the bridge listens for the desktop head-unit emulator.
pub const TCP_DHU_PORT: u16 = 5277;

} // verus!

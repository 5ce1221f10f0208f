//! Bluetooth bring-up and teardown decisions.
//!
//! The adapter, advertisement, agent and profile handles live outside
//! the library; what is decided here is everything about them that does
//! not touch the Bluetooth stack: the adapter alias, whether to
//! advertise over BLE or fall back to classic discoverable mode,
//! whether and whom to call out to in dongle mode, and what teardown
//! does with the adapter.

use vstd::prelude::*;
use vstd::string::StrSliceExecFns;
use vstd::string::StringExecFns;

verus! {

/// Service UUID of the wireless projection profile, advertised over BLE
/// and registered as the RFCOMM server profile.
pub const AAWG_PROFILE_UUID: u128 = 0x4de17a0052cb11e6bdf40800200c9a66;

/// UUID of the headset-side profile registered opportunistically in
/// dongle mode.
pub const HSP_HS_UUID: u128 = 0x0000110800001000800000805f9b34fb;

/// UUID of the audio-gateway profile dialled by the dongle-mode
/// connector.
pub const HSP_AG_UUID: u128 = 0x0000111200001000800000805f9b34fb;

/// RFCOMM channel of the projection profile.
pub const AAWG_RFCOMM_CHANNEL: u8 = 8;

/// Base adapter alias; a device serial suffix is appended when one is
/// available.
pub const BT_ALIAS: &'static str = "WirelessAADongle";

/// Milliseconds the teardown waits for the headset-profile task before
/// giving up on it.
pub const HSP_JOIN_TIMEOUT_MS: u64 = 2500;

/// Seconds between attempts of the dongle-mode connector.
pub const CONNECT_RETRY_SECS: u64 = 1;

/// A Bluetooth device address, six octets.
#[derive(Clone, Copy, Debug, PartialEq, Eq)]
pub struct BtAddress {
    pub octets: [u8; 6],
}

/// The wildcard address: call out to every known bonded device.
pub open spec fn is_any_address(a: BtAddress) -> bool {
    forall|i: int| 0 <= i < 6 ==> a.octets[i] == 0
}

impl BtAddress {
    /// Whether this is the wildcard (all-zero) address.
    pub fn is_any(&self) -> (b: bool)
        ensures
            b == is_any_address(*self),
    {
        let mut i: usize = 0;
        while i < 6
            invariant
                i <= 6,
                forall|j: int| 0 <= j < i ==> self.octets@[j] == 0,
            decreases 6 - i,
        {
            if self.octets[i] != 0 {
                assert(self.octets@[i as int] != 0);
                return false;
            }
            i = i + 1;
        }
        true
    }
}

/// The device serial read for the alias suffix: exactly 17 ASCII
/// characters are expected, and characters 10 through 15 are the
/// suffix.  Anything else means no suffix.
pub fn serial_number_suffix(contents: &str) -> (r: Option<String>)
    ensures
        (contents@.len() == 17 && vstd::string::is_ascii(contents)) ==> (r matches Some(s) && s@
            == contents@.subrange(10, 16)),
        !(contents@.len() == 17 && vstd::string::is_ascii(contents)) ==> r is None,
{
    if !contents.is_ascii() {
        return None;
    }
    let n = contents.unicode_len();
    if n != 17 {
        return None;
    }
    let suffix = contents.substring_ascii(10, 16);
    Some(String::from_str(suffix))
}

/// The alias an adapter carries: a caller-supplied override wins;
/// otherwise the base alias, with the serial suffix appended when one
/// was found.
pub open spec fn spec_session_alias(btalias: Option<String>, suffix: Option<String>) -> Seq<char> {
    match btalias {
        Option::Some(a) => a@,
        Option::None => match suffix {
            Option::Some(s) => BT_ALIAS@ + "-"@ + s@,
            Option::None => BT_ALIAS@,
        },
    }
}

/// The alias a session's adapter carries.
pub fn session_alias(btalias: Option<String>, suffix: Option<String>) -> (r: String)
    ensures
        r@ == spec_session_alias(btalias, suffix),
{
    match btalias {
        Some(a) => a,
        None => {
            match suffix {
                Some(s) => {
                    let base = String::from_str(BT_ALIAS).concat("-");
                    base.concat(s.as_str())
                },
                None => String::from_str(BT_ALIAS),
            }
        },
    }
}

/// Whom the dongle-mode connector calls, retrying every second until a
/// device accepts or the phone connects inbound.
#[derive(Clone, Copy, Debug, PartialEq, Eq)]
pub enum ConnectorPlan {
    /// Not in dongle mode, or no address given: wait passively.
    NoConnector,
    /// Wildcard address: try every known bonded device in turn.
    AllKnownDevices,
    /// Call this one device.
    Single(BtAddress),
}

/// The dongle-mode connector runs only in dongle mode and only when an
/// address was given; the wildcard address means every bonded device.
pub open spec fn spec_connector_plan(dongle_mode: bool, connect: Option<BtAddress>) -> ConnectorPlan {
    if !dongle_mode {
        ConnectorPlan::NoConnector
    } else {
        match connect {
            Option::None => ConnectorPlan::NoConnector,
            Option::Some(a) => if is_any_address(a) {
                ConnectorPlan::AllKnownDevices
            } else {
                ConnectorPlan::Single(a)
            },
        }
    }
}

/// Whom the dongle-mode connector calls for this configuration.
pub fn connector_plan(dongle_mode: bool, connect: Option<BtAddress>) -> (p: ConnectorPlan)
    ensures
        p == spec_connector_plan(dongle_mode, connect),
{
    if !dongle_mode {
        return ConnectorPlan::NoConnector;
    }
    match connect {
        None => ConnectorPlan::NoConnector,
        Some(a) => {
            if a.is_any() {
                ConnectorPlan::AllKnownDevices
            } else {
                ConnectorPlan::Single(a)
            }
        },
    }
}

/// How the adapter is made visible before the handshake.
#[derive(Clone, Copy, Debug, PartialEq, Eq, Structural)]
pub struct VisibilityPlan {
    /// Publish a BLE peripheral advertisement carrying the projection
    /// profile's UUID and the alias as local name.
    pub ble_advertise: bool,
    /// Fall back to classic discoverable mode, with no timeout.
    pub classic_discoverable: bool,
}

/// BLE advertisement when asked for, classic discoverable mode
/// otherwise — exactly one of the two.
pub fn visibility_plan(advertise: bool) -> (p: VisibilityPlan)
    ensures
        p.ble_advertise == advertise,
        p.classic_discoverable == !advertise,
        p.ble_advertise != p.classic_discoverable,
{
    VisibilityPlan { ble_advertise: advertise, classic_discoverable: !advertise }
}

/// What teardown does once the handshake is over.
#[derive(Clone, Copy, Debug, PartialEq, Eq, Structural)]
pub struct TeardownPlan {
    /// How long to wait for the headset-profile task's handle.
    pub hsp_join_timeout_ms: u64,
    /// Power the adapter off — exactly when the session was not asked
    /// to keep it alive.
    pub power_off: bool,
}

/// Teardown drops the handles, waits briefly for the headset-profile
/// task, and powers the adapter off unless `keepalive` was set.
pub fn teardown_plan(keepalive: bool) -> (p: TeardownPlan)
    ensures
        p.hsp_join_timeout_ms == HSP_JOIN_TIMEOUT_MS,
        p.power_off == !keepalive,
{
    TeardownPlan { hsp_join_timeout_ms: HSP_JOIN_TIMEOUT_MS, power_off: !keepalive }
}

} // verus!

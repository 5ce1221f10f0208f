//! The proxy worker's per-packet step: serialize a received packet back
//! to wire form for the opposite endpoint and account the bytes written.
//!
//! One worker runs per direction.  With interception disabled every
//! packet passes through byte-exact; the byte counters it maintains are
//! shared with the transfer monitor and never decrease.

use crate::frame::{header_len, packet_wf, packet_wire, serialize_packet, Packet};
use vstd::prelude::*;

verus! {

/// Capacity of the in-process channel from a reader to the opposite
/// worker; a full channel blocks the reader, which is the proxy's
/// backpressure.
pub const FRAME_CHANNEL_CAPACITY: usize = 10;

/// Bytes written towards one endpoint since the session started.
/// The count never decreases; once it would pass `u64::MAX` it pegs
/// there rather than wrap.
#[derive(Clone, Copy, Debug, PartialEq, Eq, Structural)]
pub struct DirectionCounter {
    pub total: u64,
}

/// What a counter reads after `n` more bytes are written.
pub open spec fn counter_after(total: u64, n: u64) -> u64 {
    if total + n <= u64::MAX {
        (total + n) as u64
    } else {
        u64::MAX
    }
}

impl DirectionCounter {
    /// A fresh counter at zero.
    pub fn new() -> (c: DirectionCounter)
        ensures
            c.total == 0,
    {
        DirectionCounter { total: 0 }
    }

    /// Account `n` more bytes written.  The count never decreases.
    pub fn add(&mut self, n: u64)
        ensures
            final(self).total == counter_after(old(self).total, n),
            final(self).total >= old(self).total,
    {
        if n <= u64::MAX - self.total {
            self.total = self.total + n;
        } else {
            self.total = u64::MAX;
        }
    }

    /// The current reading.
    pub fn get(&self) -> (t: u64)
        ensures
            t == self.total,
    {
        self.total
    }
}

/// One pass-through step of a proxy worker: re-serialize the packet for
/// the outbound endpoint and account every byte of it.
pub fn forward_packet(p: &Packet, bytes_written: &mut DirectionCounter) -> (w: Vec<u8>)
    requires
        packet_wf(*p),
    ensures
        w@ == packet_wire(*p),
        w@.len() == header_len(p.flags) + p.body@.len(),
        final(bytes_written).total == counter_after(old(bytes_written).total, w@.len() as u64),
        final(bytes_written).total >= old(bytes_written).total,
{
    let w = serialize_packet(p);
    bytes_written.add(w.len() as u64);
    w
}

} // verus!

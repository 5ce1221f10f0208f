//! The transfer monitor: periodic throughput reports and the stall
//! watchdog over the two shared byte counters.
//!
//! The surrounding loop wakes every 100 ms, reads both counters, and
//! calls in here when the report interval or the stall window has
//! elapsed.  The decisions — what the report says, and whether the
//! session has stalled — are made here.

use crate::error::BridgeError;
use vstd::prelude::*;

verus! {

/// How often the monitor's loop wakes to look at the counters.
pub const MONITOR_TICK_MS: u64 = 100;

/// The counter readings the monitor saw at its last report and at its
/// last stall check, per direction.
#[derive(Clone, Copy, Debug, PartialEq, Eq, Structural)]
pub struct TransferMonitor {
    pub report_usb_last: u64,
    pub report_tcp_last: u64,
    pub stall_usb_last: u64,
    pub stall_tcp_last: u64,
}

/// One throughput report: bytes moved since the last report and the
/// running totals, per direction.  The caller divides the deltas by the
/// elapsed interval for a rate.
#[derive(Clone, Copy, Debug, PartialEq, Eq, Structural)]
pub struct TransferReport {
    pub usb_delta: u64,
    pub tcp_delta: u64,
    pub usb_total: u64,
    pub tcp_total: u64,
}

impl TransferMonitor {
    /// A fresh monitor that has seen nothing move.
    pub fn new() -> (m: TransferMonitor)
        ensures
            m.report_usb_last == 0,
            m.report_tcp_last == 0,
            m.stall_usb_last == 0,
            m.stall_tcp_last == 0,
    {
        TransferMonitor { report_usb_last: 0, report_tcp_last: 0, stall_usb_last: 0, stall_tcp_last: 0 }
    }

    /// The stats interval elapsed: report both directions' movement
    /// since the last report and remember the new readings.
    pub fn stats_report(&mut self, usb_total: u64, tcp_total: u64) -> (rep: TransferReport)
        requires
            usb_total >= old(self).report_usb_last,
            tcp_total >= old(self).report_tcp_last,
        ensures
            rep.usb_delta == usb_total - old(self).report_usb_last,
            rep.tcp_delta == tcp_total - old(self).report_tcp_last,
            rep.usb_total == usb_total,
            rep.tcp_total == tcp_total,
            final(self).report_usb_last == usb_total,
            final(self).report_tcp_last == tcp_total,
            final(self).stall_usb_last == old(self).stall_usb_last,
            final(self).stall_tcp_last == old(self).stall_tcp_last,
    {
        let rep = TransferReport {
            usb_delta: usb_total - self.report_usb_last,
            tcp_delta: tcp_total - self.report_tcp_last,
            usb_total,
            tcp_total,
        };
        self.report_usb_last = usb_total;
        self.report_tcp_last = tcp_total;
        rep
    }

    /// The stall window elapsed: if either direction has not moved
    /// since the last check, the session has stalled and must fail.
    pub fn stall_check(&mut self, usb_total: u64, tcp_total: u64) -> (r: Result<(), BridgeError>)
        ensures
            r is Ok <==> (usb_total != old(self).stall_usb_last && tcp_total != old(
                self,
            ).stall_tcp_last),
            r is Err ==> r == Err::<(), BridgeError>(BridgeError::TransferStall) && *final(self)
                == *old(self),
            r is Ok ==> {
                &&& final(self).stall_usb_last == usb_total
                &&& final(self).stall_tcp_last == tcp_total
                &&& final(self).report_usb_last == old(self).report_usb_last
                &&& final(self).report_tcp_last == old(self).report_tcp_last
            },
    {
        if usb_total == self.stall_usb_last || tcp_total == self.stall_tcp_last {
            return Err(BridgeError::TransferStall);
        }
        self.stall_usb_last = usb_total;
        self.stall_tcp_last = tcp_total;
        Ok(())
    }
}

} // verus!

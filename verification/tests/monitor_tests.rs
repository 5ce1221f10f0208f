use aa_bridge::error::BridgeError;
use aa_bridge::monitor::TransferMonitor;
use aa_bridge::proxy::DirectionCounter;

#[test]
fn counters_start_at_zero_and_accumulate() {
    let mut c = DirectionCounter::new();
    assert_eq!(c.get(), 0);
    c.add(24);
    assert_eq!(c.get(), 24);
    c.add(0);
    assert_eq!(c.get(), 24);
    c.add(1000);
    assert_eq!(c.get(), 1024);
}

#[test]
fn counters_never_decrease_even_at_the_limit() {
    let mut c = DirectionCounter { total: u64::MAX - 5 };
    c.add(3);
    assert_eq!(c.get(), u64::MAX - 2);
    c.add(100);
    assert_eq!(c.get(), u64::MAX);
    c.add(1);
    assert_eq!(c.get(), u64::MAX);
}

#[test]
fn silence_in_both_directions_stalls() {
    let mut m = TransferMonitor::new();
    assert_eq!(m.stall_check(0, 0), Err(BridgeError::TransferStall));
}

#[test]
fn silence_in_one_direction_stalls() {
    let mut m = TransferMonitor::new();
    m.stall_check(100, 200).unwrap();
    assert_eq!(m.stall_check(100, 350), Err(BridgeError::TransferStall));
    let mut m2 = TransferMonitor::new();
    m2.stall_check(100, 200).unwrap();
    assert_eq!(m2.stall_check(140, 200), Err(BridgeError::TransferStall));
}

#[test]
fn movement_in_both_directions_passes() {
    let mut m = TransferMonitor::new();
    m.stall_check(10, 20).unwrap();
    m.stall_check(11, 21).unwrap();
    m.stall_check(500, 600).unwrap();
}

#[test]
fn reports_carry_deltas_and_totals() {
    let mut m = TransferMonitor::new();
    let r1 = m.stats_report(1000, 4000);
    assert_eq!(r1.usb_delta, 1000);
    assert_eq!(r1.tcp_delta, 4000);
    assert_eq!(r1.usb_total, 1000);
    assert_eq!(r1.tcp_total, 4000);
    let r2 = m.stats_report(1500, 4000);
    assert_eq!(r2.usb_delta, 500);
    assert_eq!(r2.tcp_delta, 0);
    assert_eq!(r2.usb_total, 1500);
    assert_eq!(r2.tcp_total, 4000);
}

#[test]
fn reporting_does_not_disturb_the_stall_window() {
    let mut m = TransferMonitor::new();
    m.stall_check(10, 10).unwrap();
    m.stats_report(50, 60);
    // stall baseline is still (10, 10): movement since then passes
    m.stall_check(50, 60).unwrap();
    // and no further movement stalls
    assert_eq!(m.stall_check(50, 60), Err(BridgeError::TransferStall));
}

use jericho_os::benchmark::{
    average_cycles, collect_results, cycles_to_ns, cycles_to_us, estimate_memory_footprint,
    get_context_switch_stats, meets_syscall_target, record_context_switch, ContextSwitchStats,
};
use jericho_os::hal::{
    classify_interrupt, crlf_encode, enable_bit, hex_chars, interrupt_line_count,
    ipriorityr_address, isenabler_address, timer_ticks_for_interval, IrqAction, GICD_IPRIORITYR,
    GICD_ISENABLER0, SPURIOUS_IRQ, TIMER_IRQ,
};

#[test]
fn hex_rendering_is_fixed_width_uppercase() {
    assert_eq!(hex_chars(0x2A), b"000000000000002A".to_vec());
    assert_eq!(hex_chars(0), b"0000000000000000".to_vec());
    assert_eq!(hex_chars(u64::MAX), b"FFFFFFFFFFFFFFFF".to_vec());
    assert_eq!(hex_chars(0x0123_4567_89AB_CDEF), b"0123456789ABCDEF".to_vec());
}

#[test]
fn serial_line_endings_are_expanded() {
    assert_eq!(crlf_encode(b"ab\ncd\n"), b"ab\r\ncd\r\n".to_vec());
    assert_eq!(crlf_encode(b""), Vec::<u8>::new());
    assert_eq!(crlf_encode(b"\n"), b"\r\n".to_vec());
    assert_eq!(crlf_encode(b"plain"), b"plain".to_vec());
}

#[test]
fn gic_register_math() {
    // QEMU virt reports five interrupt-line groups.
    assert_eq!(interrupt_line_count(0x04), 160);
    assert_eq!(interrupt_line_count(0x1F), 1024);
    assert_eq!(isenabler_address(TIMER_IRQ), GICD_ISENABLER0);
    assert_eq!(isenabler_address(32), GICD_ISENABLER0 + 4);
    assert_eq!(enable_bit(TIMER_IRQ), 1 << 30);
    assert_eq!(enable_bit(33), 1 << 1);
    assert_eq!(ipriorityr_address(0), GICD_IPRIORITYR);
    assert_eq!(ipriorityr_address(3), GICD_IPRIORITYR + 12);
}

#[test]
fn timer_reload_for_hundred_hertz() {
    // 62.5 MHz, the QEMU virt counter frequency.
    assert_eq!(timer_ticks_for_interval(62_500_000), 625_000);
    assert_eq!(timer_ticks_for_interval(24_000_000), 240_000);
}

#[test]
fn irq_classification() {
    assert_eq!(classify_interrupt(TIMER_IRQ), IrqAction::TimerTick);
    assert_eq!(classify_interrupt(SPURIOUS_IRQ), IrqAction::Spurious);
    assert_eq!(classify_interrupt(5), IrqAction::Other);
}

#[test]
fn cycle_conversions_assume_three_gigahertz() {
    assert_eq!(cycles_to_us(3_000_000), 1000);
    assert_eq!(cycles_to_ns(3_000_000), 1_000_000);
    assert_eq!(cycles_to_ns(2), 0);
    assert_eq!(average_cycles(1000, 4), 250);
}

#[test]
fn switch_stats_accumulate_and_average() {
    let mut stats = ContextSwitchStats::new();
    record_context_switch(&mut stats, 300);
    record_context_switch(&mut stats, 500);
    let (count, total, avg) = get_context_switch_stats(&stats);
    assert_eq!(count, 2);
    assert_eq!(total, 800);
    assert_eq!(avg, 400);
    let empty = ContextSwitchStats::new();
    assert_eq!(get_context_switch_stats(&empty), (0, 0, 0));
}

#[test]
fn switch_stats_wrap_like_hardware_counters() {
    let mut stats = ContextSwitchStats::new();
    stats.count = u64::MAX;
    stats.total_cycles = u64::MAX - 1;
    record_context_switch(&mut stats, 3);
    assert_eq!(stats.count, 0);
    assert_eq!(stats.total_cycles, 1);
}

#[test]
fn report_figures_are_exact() {
    let mut stats = ContextSwitchStats::new();
    record_context_switch(&mut stats, 3000);
    record_context_switch(&mut stats, 9000);
    let r = collect_results(6_000_000, &stats, 500);
    assert_eq!(r.boot_time_us, 2000);
    assert_eq!(r.boot_time_cycles, 6_000_000);
    assert_eq!(r.context_switches, 2);
    assert_eq!(r.avg_context_switch_ns, 2000);
    assert_eq!(r.timer_ticks, 500);
    assert_eq!(r.uptime_ms, 5000);
    assert!(r.meets_boot_target());
    assert!(r.meets_switch_target());
    assert!(meets_syscall_target(999));
    assert!(!meets_syscall_target(1000));
}

#[test]
fn report_targets_can_fail() {
    let stats = ContextSwitchStats::new();
    let mut r = collect_results(60_000_000, &stats, 0);
    assert_eq!(r.boot_time_us, 20_000);
    assert!(!r.meets_boot_target());
    r.avg_context_switch_ns = 5_000;
    assert!(!r.meets_switch_target());
}

#[test]
fn memory_footprint_estimate() {
    assert_eq!(estimate_memory_footprint(), (100 + 8192 + 96) * 1024);
}

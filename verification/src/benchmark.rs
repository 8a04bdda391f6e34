//! Benchmark accounting: cycle-count conversions, the context-switch
//! statistics record, and the derived figures the benchmark report
//! prints.
//!
//! Reading the cycle counter is a hardware access and stays with the
//! embedding; everything derived from the raw counts is computed and
//! stated here. Conversions assume the nominal 3 GHz clock the report is
//! calibrated for.

use vstd::prelude::*;

verus! {

/// One period of the modeled 64-bit counters.
pub open spec fn counter_period() -> int {
    0x1_0000_0000_0000_0000
}

/// Convert cycles of the nominal 3 GHz clock to microseconds.
pub fn cycles_to_us(cycles: u64) -> (r: u64)
    ensures
        r == cycles / 3000,
{
    cycles / 3000
}

/// Convert cycles of the nominal 3 GHz clock to nanoseconds.
pub fn cycles_to_ns(cycles: u64) -> (r: u64)
    ensures
        r == cycles / 3,
{
    cycles / 3
}

/// Average cost of one iteration.
pub fn average_cycles(total_cycles: u64, iterations: u64) -> (r: u64)
    requires
        iterations > 0,
    ensures
        r == total_cycles / iterations,
{
    total_cycles / iterations
}

/// Messages per second at the nominal 3 GHz clock, given the average
/// cycles one message costs; zero when no cost was measured.
pub fn throughput_per_second(avg_cycles_per_msg: u64) -> (r: u64)
    ensures
        avg_cycles_per_msg > 0 ==> r == 3_000_000_000u64 / avg_cycles_per_msg,
        avg_cycles_per_msg == 0 ==> r == 0,
{
    if avg_cycles_per_msg > 0 {
        3_000_000_000u64 / avg_cycles_per_msg
    } else {
        0
    }
}

/// Running totals of context-switch cost.
pub struct ContextSwitchStats {
    /// Number of recorded switches.
    pub count: u64,
    /// Total cycles spent across them.
    pub total_cycles: u64,
}

impl ContextSwitchStats {
    /// Zeroed statistics.
    pub fn new() -> (r: Self)
        ensures
            r.count == 0,
            r.total_cycles == 0,
    {
        ContextSwitchStats { count: 0, total_cycles: 0 }
    }
}

/// Account one context switch that took `cycles`. The counters are
/// modular 64-bit accumulators, as a hardware counter would be.
pub fn record_context_switch(stats: &mut ContextSwitchStats, cycles: u64)
    ensures
        final(stats).count == (old(stats).count + 1) % counter_period(),
        final(stats).total_cycles == (old(stats).total_cycles + cycles) % counter_period(),
{
    stats.count = stats.count.wrapping_add(1);
    stats.total_cycles = stats.total_cycles.wrapping_add(cycles);
}

/// The recorded totals: switch count, total cycles, and the average
/// cycles per switch (zero when nothing was recorded).
pub fn get_context_switch_stats(stats: &ContextSwitchStats) -> (r: (u64, u64, u64))
    ensures
        r.0 == stats.count,
        r.1 == stats.total_cycles,
        stats.count > 0 ==> r.2 == stats.total_cycles / stats.count,
        stats.count == 0 ==> r.2 == 0,
{
    let avg = if stats.count > 0 {
        stats.total_cycles / stats.count
    } else {
        0
    };
    (stats.count, stats.total_cycles, avg)
}

/// The figures of one benchmark run.
pub struct BenchmarkResults {
    pub boot_time_us: u64,
    pub boot_time_cycles: u64,
    pub context_switches: u64,
    pub avg_context_switch_ns: u64,
    pub timer_ticks: u64,
    pub uptime_ms: u64,
}

impl BenchmarkResults {
    /// Whether the run met the boot-time target of 10 ms.
    pub fn meets_boot_target(&self) -> (r: bool)
        ensures
            r <==> self.boot_time_us < 10_000,
    {
        self.boot_time_us < 10_000
    }

    /// Whether the run met the context-switch target of 5 µs.
    pub fn meets_switch_target(&self) -> (r: bool)
        ensures
            r <==> self.avg_context_switch_ns < 5_000,
    {
        self.avg_context_switch_ns < 5_000
    }
}

/// Whether a measured syscall latency meets the 1 µs target.
pub fn meets_syscall_target(latency_ns: u64) -> (r: bool)
    ensures
        r <==> latency_ns < 1_000,
{
    latency_ns < 1_000
}

/// Derive the report figures from the raw measurements: the boot cycle
/// count, the recorded switch statistics, and the tick count of the
/// 10 ms timer.
pub fn collect_results(boot_cycles: u64, stats: &ContextSwitchStats, timer_ticks: u64) -> (r: BenchmarkResults)
    requires
        timer_ticks <= u64::MAX / 10,
    ensures
        r.boot_time_us == boot_cycles / 3000,
        r.boot_time_cycles == boot_cycles,
        r.context_switches == stats.count,
        stats.count > 0 ==> r.avg_context_switch_ns == (stats.total_cycles / stats.count) / 3,
        stats.count == 0 ==> r.avg_context_switch_ns == 0,
        r.timer_ticks == timer_ticks,
        r.uptime_ms == timer_ticks * 10,
{
    let boot_time_us = cycles_to_us(boot_cycles);
    let (count, _total, avg) = get_context_switch_stats(stats);
    let avg_ns = cycles_to_ns(avg);
    BenchmarkResults {
        boot_time_us,
        boot_time_cycles: boot_cycles,
        context_switches: count,
        avg_context_switch_ns: avg_ns,
        timer_ticks,
        uptime_ms: timer_ticks * 10,
    }
}

/// Static memory footprint figure the report prints: kernel code
/// estimate, heap, and three task stacks, in bytes.
pub fn estimate_memory_footprint() -> (r: usize)
    ensures
        r == (100 + 8192 + 96) * 1024,
{
    (100 + 8192 + 96) * 1024
}

} // verus!

//! The watchdog of a sandbox: what it decides each time it looks.
use vstd::prelude::*;

verus! {

/// The time between two looks of the watchdog, in seconds.
pub const PERIOD_SECS: u64 = 1;

/// What the watchdog tells the sandbox.
#[derive(Debug, Clone, Copy, PartialEq, Eq, Structural)]
pub enum Event {
    /// The CPU time limit was exceeded.
    CpuTle,
    /// The wall-clock time limit was exceeded.
    RealTle,
    /// The watchdog is still there.
    Heartbeat,
}

/// What the watchdog does after it looked.
#[derive(Debug, Clone, Copy, PartialEq, Eq, Structural)]
pub enum Verdict {
    /// The sandbox is within its limits: look again in a second.
    Continue,
    /// A limit was exceeded: tell the sandbox which, kill it, and stop.
    Kill(Event),
    /// The sandbox is gone: stop.
    Exit,
}

/// Whether the CPU time limit counts as exceeded: the use is above the
/// limit, or could not be measured.
pub open spec fn cpu_exceeded(cpu_usage: Option<u64>, cpu_time_limit: u64) -> bool {
    match cpu_usage {
        Some(usage) => usage > cpu_time_limit,
        None => true,
    }
}

/// What the watchdog decides from what it measured. Times are in
/// nanoseconds; `elapsed` counts from the creation of the sandbox.
///
/// CPU time is judged first: a sandbox over both limits is reported as
/// over its CPU time.
pub open spec fn verdict(
    cpu_usage: Option<u64>,
    elapsed: u64,
    cpu_time_limit: u64,
    real_time_limit: u64,
) -> Verdict {
    if cpu_exceeded(cpu_usage, cpu_time_limit) {
        Verdict::Kill(Event::CpuTle)
    } else if elapsed > real_time_limit {
        Verdict::Kill(Event::RealTle)
    } else {
        Verdict::Continue
    }
}

/// Decides what the watchdog does after it measured `cpu_usage`
/// nanoseconds of CPU time, or nothing if the measurement failed, and
/// `elapsed` nanoseconds since the sandbox was created.
pub fn judge(cpu_usage: Option<u64>, elapsed: u64, cpu_time_limit: u64, real_time_limit: u64) -> (r:
    Verdict)
    ensures
        r == verdict(cpu_usage, elapsed, cpu_time_limit, real_time_limit),
{
    let was_cpu_tle = match cpu_usage {
        Some(usage) => usage > cpu_time_limit,
        None => true,
    };
    let was_real_tle = elapsed > real_time_limit;
    if was_cpu_tle {
        Verdict::Kill(Event::CpuTle)
    } else if was_real_tle {
        Verdict::Kill(Event::RealTle)
    } else {
        Verdict::Continue
    }
}

/// One round of the watchdog, which comes every `PERIOD_SECS` seconds.
/// It first sends a heartbeat; where nobody is left to receive it, the
/// sandbox was destroyed and the watchdog stops without measuring.
/// Otherwise it decides from what it measured.
pub fn watchdog(
    heartbeat_received: bool,
    cpu_usage: Option<u64>,
    elapsed: u64,
    cpu_time_limit: u64,
    real_time_limit: u64,
) -> (r: Verdict)
    ensures
        r == if heartbeat_received {
            verdict(cpu_usage, elapsed, cpu_time_limit, real_time_limit)
        } else {
            Verdict::Exit
        },
{
    if !heartbeat_received {
        return Verdict::Exit;
    }
    judge(cpu_usage, elapsed, cpu_time_limit, real_time_limit)
}

} // verus!

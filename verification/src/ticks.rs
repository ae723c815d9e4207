//! Conversion between nanoseconds and CPU counter-timer ticks.
//!
//! The platform's counter-timer runs at 19.2 MHz, so ticks and nanoseconds
//! relate by the exact ratio 12 / 625. Reading the counter itself is a CPU
//! register access and the platform's business; the conversions are proved
//! here.

use vstd::prelude::*;

verus! {

/// Convert a time in nanoseconds to CPU counter ticks.
pub fn ns_to_cpu_ticks(ns: u64) -> (ticks: u64)
    requires
        ns * 12 <= u64::MAX,
    ensures
        ticks == (ns * 12) / 625,
{
    (ns * 12) / 625
}

/// Convert CPU counter ticks to a time in nanoseconds.
pub fn cpu_ticks_to_ns(tick: u64) -> (ns: u64)
    requires
        tick * 625 <= u64::MAX,
    ensures
        ns == (tick * 625) / 12,
{
    (tick * 625) / 12
}

} // verus!

//! Lengths of the driver's waits, in cycles of the system clock.

use vstd::prelude::*;

verus! {

/// Milliseconds the sensor needs after power-up and after a soft reset.
pub const SETTLE_MILLIS: u32 = 20;

/// Milliseconds between two status polls of a busy sensor.
pub const POLL_MILLIS: u32 = 10;

/// Clock cycles that pass in `millis` milliseconds at `sys_clock` hertz,
/// rounded down.
pub open spec fn cycles_in(sys_clock: u32, millis: u32) -> int {
    sys_clock as int * millis as int / 1000
}

/// Computes `cycles_in` for a wait of at most a second.
fn cycles(sys_clock: u32, millis: u32) -> (cycles: u32)
    requires
        millis <= 1000,
    ensures
        cycles == cycles_in(sys_clock, millis),
{
    assert(sys_clock as int * millis as int <= sys_clock as int * 1000) by (nonlinear_arith)
        requires
            millis <= 1000,
    ;
    let product: u64 = sys_clock as u64 * millis as u64;
    (product / 1000) as u32
}

/// Length of the settle time at the given clock rate.
pub fn settle_cycles(sys_clock: u32) -> (cycles: u32)
    ensures
        cycles == cycles_in(sys_clock, SETTLE_MILLIS),
{
    cycles(sys_clock, SETTLE_MILLIS)
}

/// Length of the pause between two status polls at the given clock rate.
pub fn poll_cycles(sys_clock: u32) -> (cycles: u32)
    ensures
        cycles == cycles_in(sys_clock, POLL_MILLIS),
{
    cycles(sys_clock, POLL_MILLIS)
}

} // verus!

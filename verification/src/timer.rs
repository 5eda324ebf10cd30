//! Timekeeping arithmetic.  The monotonically increasing cycle counter and
//! the one-shot deadline register are the hardware's; the runtime samples the
//! counter and hands the raw cycle count in, and these functions turn it into
//! nanoseconds, milliseconds, and the next preemption deadline.

use vstd::prelude::*;

use crate::config::{CLOCK_FREQ, NANOS_PER_CYCLE};

verus! {

/// Timer interrupts per second: the preemption tick rate.
pub const TICKS_PER_SEC: usize = 100;

/// Milliseconds per second.
pub const MSEC_PER_SEC: usize = 1000;

/// Nanoseconds a cycle count stands for.
pub open spec fn timer_now_spec(cycles: u64) -> int {
    cycles * NANOS_PER_CYCLE
}

/// Monotonic time as nanoseconds, from a sampled cycle count.
pub fn timer_now(cycles: u64) -> (nanos: u64)
    requires
        cycles * NANOS_PER_CYCLE <= u64::MAX,
    ensures
        nanos == timer_now_spec(cycles),
{
    cycles * NANOS_PER_CYCLE
}

/// Milliseconds a cycle count stands for.
pub open spec fn get_time_ms_spec(cycles: u64) -> int {
    cycles as int / (CLOCK_FREQ / MSEC_PER_SEC) as int
}

/// Milliseconds since boot, as the `get_time` syscall reports them.
pub fn get_time_ms(cycles: u64) -> (ms: u64)
    ensures
        ms == get_time_ms_spec(cycles),
{
    cycles / ((CLOCK_FREQ / MSEC_PER_SEC) as u64)
}

/// A millisecond count derived from a 64-bit cycle count is far below the
/// range of a signed 64-bit integer.
pub proof fn lemma_get_time_ms_fits(cycles: u64)
    ensures
        0 <= get_time_ms_spec(cycles) <= 0x7fff_ffff_ffff_ffff,
{
    let d = get_time_ms_spec(cycles);
    assert(d == cycles as int / 12500);
    vstd::arithmetic::div_mod::lemma_fundamental_div_mod(cycles as int, 12500);
    vstd::arithmetic::div_mod::lemma_mod_bound(cycles as int, 12500);
    assert(cycles as int == 12500 * d + (cycles as int % 12500));
    assert(0 <= cycles as int % 12500 < 12500);
}

/// The deadline the one-shot timer must be armed with to fire one preemption
/// tick from `now_cycles`.
pub fn set_next_trigger(now_cycles: u64) -> (deadline: u64)
    requires
        now_cycles + (CLOCK_FREQ / TICKS_PER_SEC) as u64 <= u64::MAX,
    ensures
        deadline == now_cycles + (CLOCK_FREQ / TICKS_PER_SEC) as int,
{
    now_cycles + ((CLOCK_FREQ / TICKS_PER_SEC) as u64)
}

} // verus!

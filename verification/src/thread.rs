//! The arithmetic of thread delays: the kernel delays a thread by a whole
//! number of microseconds, given as a `u32`.

use vstd::prelude::*;

verus! {

/// Nanoseconds in a duration of `secs` seconds and `subsec_nanos`
/// nanoseconds.
pub open spec fn duration_nanos(secs: int, subsec_nanos: int) -> int {
    secs * 1_000_000_000 + subsec_nanos
}

/// The fewest whole microseconds that last at least `nanos` nanoseconds.
pub open spec fn micros_rounded_up(nanos: int) -> int {
    (nanos + 999) / 1000
}

/// The delay, in microseconds, that a thread sleeps for a duration of `secs`
/// seconds and `subsec_nanos` nanoseconds: the duration rounded up to whole
/// microseconds, so that a thread never sleeps less than it asked. `None`
/// when that is more microseconds than the kernel takes.
pub fn delay_micros(secs: u64, subsec_nanos: u32) -> (r: Option<u32>)
    requires
        subsec_nanos < 1_000_000_000,
    ensures
        r is None <==> micros_rounded_up(duration_nanos(secs as int, subsec_nanos as int)) > u32::MAX,
        r matches Some(us) ==> us == micros_rounded_up(duration_nanos(secs as int, subsec_nanos as int)),
{
    let nanos: u128 = secs as u128 * 1_000_000_000u128 + subsec_nanos as u128;
    assert(nanos == duration_nanos(secs as int, subsec_nanos as int)) by (nonlinear_arith)
        requires
            nanos == secs as u128 * 1_000_000_000u128 + subsec_nanos as u128,
            secs <= u64::MAX,
    ;
    let us: u128 = nanos / 1000 + (nanos % 1000 + 999) / 1000;
    proof {
        lemma_micros(nanos as int);
    }
    if us <= 0xffff_ffffu128 {
        Some(us as u32)
    } else {
        None
    }
}

/// Whole microseconds plus the rest rounded up is the whole duration rounded
/// up.
proof fn lemma_micros(nanos: int)
    requires
        0 <= nanos,
    ensures
        nanos / 1000 + (nanos % 1000 + 999) / 1000 == micros_rounded_up(nanos),
{
    let q = nanos / 1000;
    let r = nanos % 1000;
    assert(nanos == q * 1000 + r && 0 <= r < 1000);
    assert((nanos + 999) / 1000 == q + (r + 999) / 1000) by (nonlinear_arith)
        requires
            nanos == q * 1000 + r,
            0 <= r < 1000,
    ;
}

/// The rounded delay lasts at least the asked duration, and less than one
/// microsecond longer.
pub proof fn lemma_delay_covers_duration(nanos: int)
    requires
        0 <= nanos,
    ensures
        micros_rounded_up(nanos) * 1000 >= nanos,
        (micros_rounded_up(nanos) - 1) * 1000 < nanos,
{
    let us = micros_rounded_up(nanos);
    assert(us * 1000 <= nanos + 999 < (us + 1) * 1000) by (nonlinear_arith)
        requires
            us == (nanos + 999) / 1000,
            0 <= nanos,
    ;
}

} // verus!

use vstd::prelude::*;

verus! {

/// The number of scheduler ticks in `time_us` microseconds, for a tick rate
/// of `tick_rate_hz`, rounded down and cut to 32 bits.
pub fn micro_to_ticks(tick_rate_hz: u32, time_us: u32) -> (ticks: u32)
    ensures
        ticks == ((tick_rate_hz * time_us) / 1_000_000int) as u32,
{
    assert(tick_rate_hz as u64 * time_us as u64 <= u64::MAX) by (nonlinear_arith);
    ((tick_rate_hz as u64) * (time_us as u64) / 1_000_000u64) as u32
}

} // verus!

//! Busy-wait lengths: how many processor cycles a delay takes.
//!
//! A cycle is counted as 10 ns, the period of a 100 MHz clock. The processor
//! runs faster than that, so a wait of the cycles computed here lasts at
//! least as long as was asked for.

use vstd::prelude::*;
use wio_terminal::hal::time::Nanoseconds;

verus! {

/// Nanoseconds counted for one processor cycle.
pub const CYCLE_PERIOD_NS: u32 = 10;

/// The longest delay in microseconds whose length in nanoseconds fits in
/// 32 bits.
pub const MAX_DELAY_US: u32 = 4_294_967;

/// The longest delay in milliseconds whose length in nanoseconds fits in
/// 32 bits.
pub const MAX_DELAY_MS: u32 = 4_294;

/// The cycles that `us` microseconds take.
pub open spec fn cycles_of_micros(us: int) -> int {
    us * 1000 / (CYCLE_PERIOD_NS as int)
}

/// `fugit::Duration::micros` at the resolution of the board crate's
/// `Nanoseconds`, and `ticks`: a span of `us` microseconds counted in
/// nanoseconds, which is `us` times 1000 in 32-bit arithmetic.
#[verifier::external_body]
fn nanos_of_micros(us: u32) -> (nanos: u32)
    requires
        us * 1000 <= u32::MAX,
    ensures
        nanos == us * 1000,
{
    Nanoseconds::micros(us).ticks()
}

/// The cycles that `us` microseconds take.
pub fn us_to_cycle(us: u32) -> (cycles: u32)
    requires
        us <= MAX_DELAY_US,
    ensures
        cycles == cycles_of_micros(us as int),
        cycles == us * 100,
{
    let delay: u32 = nanos_of_micros(us);
    delay / CYCLE_PERIOD_NS
}

/// The cycles to spin for a delay of at least `ms` milliseconds.
pub fn cycle_delay_ms(ms: u32) -> (cycles: u32)
    requires
        ms <= MAX_DELAY_MS,
    ensures
        cycles == cycles_of_micros(ms * 1000),
        cycles == ms * 100_000,
{
    cycle_delay_us(ms * 1000)
}

/// The cycles to spin for a delay of at least `us` microseconds.
pub fn cycle_delay_us(us: u32) -> (cycles: u32)
    requires
        us <= MAX_DELAY_US,
    ensures
        cycles == cycles_of_micros(us as int),
        cycles == us * 100,
{
    us_to_cycle(us)
}

} // verus!

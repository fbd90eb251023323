//! The programmable interval timer, which raises IRQ 0 at a fixed rate.
use vstd::prelude::*;

verus! {

/// The internal frequency of the PIT, in Hz.
pub const PIT_FREQ: u64 = 1_193_180;

/// The number of nanoseconds between two internal ticks of the PIT.
pub const PIT_TICK_NS: u64 = 838;

/// The frequency at which the PIT raises IRQ 0, in Hz.
pub const FREQUENCY: u64 = 200;

/// The divisor loaded into the PIT to get [`FREQUENCY`].
pub const LATCH: u64 = 5965;

/// The divisor as two bytes, low then high, in the order the PIT takes
/// them.
pub fn latch_bytes() -> (r: (u8, u8))
    ensures
        r.0 == LATCH % 256,
        r.1 == LATCH / 256,
        PIT_TICK_NS == 1_000_000_000u64 / PIT_FREQ,
        LATCH == PIT_FREQ / FREQUENCY,
{
    let high = ((LATCH >> 8) & 0xFF) as u8;
    let low = (LATCH & 0xFF) as u8;
    assert(((LATCH >> 8u64) & 0xFF) == LATCH / 256 && (LATCH & 0xFF) == LATCH % 256) by (bit_vector);
    (low, high)
}

/// The counter of the PIT, from the two bytes it was read as.
pub fn counter(low: u8, high: u8) -> (r: u64)
    ensures
        r == high * 256 + low,
{
    let r = ((high as u64) << 8) | (low as u64);
    let h = high as u64;
    let l = low as u64;
    assert((h << 8u64) | l == h * 256 + l) by (bit_vector)
        requires
            h < 256,
            l < 256,
    ;
    r
}

/// The time elapsed since the last IRQ, in nanoseconds, from the counter of
/// the PIT, which counts down from [`LATCH`].
pub fn nano_offset(counter: u64) -> (r: u64)
    requires
        counter <= LATCH,
    ensures
        r == (LATCH - counter) * PIT_TICK_NS,
{
    let elapsed = LATCH - counter;
    assert(elapsed * PIT_TICK_NS <= LATCH * PIT_TICK_NS) by (nonlinear_arith)
        requires
            elapsed <= LATCH,
    ;
    elapsed * PIT_TICK_NS
}

/// Counts one more tick of the PIT; the count wraps around.
pub fn timer_tick(ticks: &mut u64)
    ensures
        *final(ticks) == (if *old(ticks) == u64::MAX {
            0
        } else {
            *old(ticks) + 1
        }),
{
    *ticks = ticks.wrapping_add(1);
}

} // verus!

use crate::led::pixel::{good, leading, leading_frame, low, Rgb};
use vstd::prelude::*;

verus! {

/// Below this charge, in percent, the gauge is drawn in the low colour.
pub const LOW_BELOW: u8 = 30;

/// From this charge on, in percent, the gauge lights the whole strip.
pub const FULL_FROM: u8 = 89;

/// What the gauge lights for a reading of zero percent. Such a reading is
/// either a battery that is nearly empty or a reading that was never taken;
/// the two call for different gauges, so the choice is the caller's.
#[derive(Clone, Copy, Debug, PartialEq, Eq, Structural)]
pub enum EmptyReading {
    /// One pixel, as for a battery that is nearly empty.
    Minimum,
    /// The whole strip.
    Full,
}

/// The number of pixels, out of `n`, that the gauge lights for a charge of
/// `percent`: a ramp from one pixel at one percent up to the whole strip from
/// `FULL_FROM` percent on.
pub open spec fn lit_count(n: nat, percent: nat, empty: EmptyReading) -> nat {
    if percent == 0 {
        match empty {
            EmptyReading::Minimum => 1,
            EmptyReading::Full => n,
        }
    } else if percent >= FULL_FROM {
        n
    } else {
        (((percent - 1) * (n - 1)) / 88 + 1) as nat
    }
}

/// The colour of the gauge for a charge of `percent`.
pub open spec fn spec_gauge_color(percent: nat) -> Rgb {
    if percent < LOW_BELOW {
        low()
    } else {
        good()
    }
}

/// The frame of `n` pixels that shows a charge of `percent`.
pub open spec fn spec_gauge_frame(n: nat, percent: nat, empty: EmptyReading) -> Seq<Rgb> {
    leading(n, lit_count(n, percent, empty), spec_gauge_color(percent))
}

/// Splitting one factor by 88 moves the whole part of it out of the division.
proof fn lemma_split_by_88(level: int, whole: int, rest: int)
    requires
        0 <= level,
        0 <= whole,
        0 <= rest,
    ensures
        (level * (88 * whole + rest)) / 88 == level * whole + (level * rest) / 88,
        0 <= level * whole,
        0 <= level * rest,
{
    assert(level * (88 * whole + rest) == 88 * (level * whole) + level * rest)
        by (nonlinear_arith);
    assert(0 <= level * whole) by (nonlinear_arith)
        requires
            0 <= level,
            0 <= whole,
    ;
    assert(0 <= level * rest) by (nonlinear_arith)
        requires
            0 <= level,
            0 <= rest,
    ;
}

/// A product grows with its first factor.
proof fn lemma_product_grows(small: int, large: int, factor: int)
    requires
        0 <= small <= large,
        0 <= factor,
    ensures
        0 <= small * factor <= large * factor,
{
    assert(0 <= small * factor <= large * factor) by (nonlinear_arith)
        requires
            0 <= small <= large,
            0 <= factor,
    ;
}

/// Computes the number of pixels, out of `pixels`, that the gauge lights for a
/// charge of `percent`. No strip is too long for the arithmetic.
pub fn gauge_lit_count(pixels: usize, percent: u8, empty: EmptyReading) -> (count: usize)
    requires
        pixels >= 1,
    ensures
        count == lit_count(pixels as nat, percent as nat, empty),
        1 <= count <= pixels,
        percent >= FULL_FROM ==> count == pixels,
{
    if percent == 0 {
        match empty {
            EmptyReading::Minimum => 1,
            EmptyReading::Full => pixels,
        }
    } else if percent >= FULL_FROM {
        pixels
    } else {
        let level: usize = (percent - 1) as usize;
        let span: usize = pixels - 1;
        let whole: usize = span / 88;
        let rest: usize = span % 88;
        proof {
            lemma_split_by_88(level as int, whole as int, rest as int);
            lemma_product_grows(level as int, 87, whole as int);
            lemma_product_grows(level as int, 87, rest as int);
        }
        level * whole + (level * rest) / 88 + 1
    }
}

/// Picks the colour of the gauge for a charge of `percent`.
pub fn gauge_color(percent: u8) -> (color: Rgb)
    ensures
        color == spec_gauge_color(percent as nat),
{
    if percent < LOW_BELOW {
        low()
    } else {
        good()
    }
}

/// Builds the frame that shows a charge of `percent` on a strip of `N` pixels.
pub fn gauge_frame<const N: usize>(percent: u8, empty: EmptyReading) -> (frame: [Rgb; N])
    requires
        N >= 1,
    ensures
        frame@ == spec_gauge_frame(N as nat, percent as nat, empty),
{
    let count = gauge_lit_count(N, percent, empty);
    leading_frame(count, gauge_color(percent))
}

/// Between one percent and the last percent before the strip is full, a
/// higher charge never lights fewer pixels. The same holds beyond: the ramp
/// never passes the whole strip.
pub proof fn lemma_lit_count_monotone(n: nat, lower: nat, higher: nat, empty: EmptyReading)
    requires
        n >= 1,
        1 <= lower <= higher,
    ensures
        lit_count(n, lower, empty) <= lit_count(n, higher, empty),
{
    if lower < FULL_FROM {
        lemma_product_grows(lower - 1, 87, n - 1);
        if higher < FULL_FROM {
            lemma_product_grows(lower - 1, higher - 1, n - 1);
        }
    }
}

/// At one percent the gauge lights one pixel.
pub proof fn lemma_lit_count_at_one(n: nat, empty: EmptyReading)
    requires
        n >= 1,
    ensures
        lit_count(n, 1, empty) == 1,
{
    assert(0 * (n - 1) == 0);
}

/// At the last percent before the strip is full, the gauge lights all pixels
/// but one, on any strip of two pixels or more that is short enough for the
/// ramp to reach every count: 89 pixels at most.
pub proof fn lemma_lit_count_before_full(n: nat, empty: EmptyReading)
    requires
        2 <= n <= 89,
    ensures
        lit_count(n, 88, empty) == n - 1,
{
}

/// On a strip of two pixels or more, the ramp below `FULL_FROM` percent stays
/// between one pixel and all pixels but one.
pub proof fn lemma_lit_count_ramp(n: nat, percent: nat, empty: EmptyReading)
    requires
        n >= 2,
        1 <= percent < FULL_FROM,
    ensures
        1 <= lit_count(n, percent, empty) <= n - 1,
{
    lemma_product_grows(percent - 1, 87, n - 1);
}

/// From `FULL_FROM` percent on, the gauge lights the whole strip.
pub proof fn lemma_lit_count_full(n: nat, percent: nat, empty: EmptyReading)
    requires
        percent >= FULL_FROM,
    ensures
        lit_count(n, percent, empty) == n,
{
}

/// A reading of zero percent tells the two choices apart on any strip of two
/// pixels or more.
pub proof fn lemma_empty_readings_differ(n: nat)
    requires
        n >= 2,
    ensures
        lit_count(n, 0, EmptyReading::Minimum) != lit_count(n, 0, EmptyReading::Full),
{
}

} // verus!

//! The decimal fixed-point scale shared by ratios and sample values.

use vstd::prelude::*;

verus! {

/// Full scale: the integer that stands for the ratio 1 and for a sample at
/// the positive peak.
pub const ONE: i32 = 1_000_000;

/// Whether a sample value lies within full scale.
pub open spec fn in_full_scale(value: int) -> bool {
    -1_000_000 <= value <= 1_000_000
}

/// `n / d` rounded toward zero, for a positive divisor.
pub open spec fn div_toward_zero(n: int, d: int) -> int
    recommends
        d > 0,
{
    if n >= 0 {
        n / d
    } else {
        -((-n) / d)
    }
}

/// A sample multiplied by a gain, both in millionths, rounded toward zero.
pub open spec fn scaled(sample: int, gain: int) -> int {
    div_toward_zero(sample * gain, 1_000_000)
}

/// Applies a gain between 0 and 1 to a sample within full scale.
pub fn apply_gain(sample: i32, gain: u32) -> (out: i32)
    requires
        in_full_scale(sample as int),
        gain <= ONE,
    ensures
        out == scaled(sample as int, gain as int),
        in_full_scale(out as int),
        sample >= 0 ==> 0 <= out <= sample,
        sample <= 0 ==> sample <= out <= 0,
{
    if sample >= 0 {
        assert(sample as u64 * gain as u64 <= sample as u64 * 1_000_000) by (nonlinear_arith)
            requires
                gain <= 1_000_000,
        ;
        let product: u64 = sample as u64 * gain as u64;
        (product / 1_000_000) as i32
    } else {
        let magnitude: u64 = (-(sample as i64)) as u64;
        assert(magnitude * gain as u64 <= magnitude * 1_000_000) by (nonlinear_arith)
            requires
                gain <= 1_000_000,
        ;
        let product: u64 = magnitude * gain as u64;
        assert(-(sample as int * gain as int) == product as int) by (nonlinear_arith)
            requires
                product as int == magnitude as int * gain as int,
                magnitude as int == -(sample as int),
        ;
        assert(sample as int * gain as int <= 0) by (nonlinear_arith)
            requires
                sample < 0,
                gain >= 0,
        ;
        -((product / 1_000_000) as i32)
    }
}

} // verus!

//! The IEEE 754 binary64 bit pattern of an integer.
//!
//! Literals of floating-point type travel through the planner as bit patterns.
//! Where a clause takes an integer literal for a floating-point parameter, the
//! integer is turned into the pattern of the number equal to it.

use vstd::prelude::*;

verus! {

/// Two to the power `e`.
pub open spec fn two_to(e: nat) -> nat
    decreases e,
{
    if e == 0 {
        1
    } else {
        2 * two_to((e - 1) as nat)
    }
}

/// The position of the highest set bit of `m`; zero for zero.
pub open spec fn log2_floor(m: nat) -> nat
    decreases m,
{
    if m <= 1 {
        0
    } else {
        1 + log2_floor(m / 2)
    }
}

/// The binary64 pattern of the number equal to `x`, for `x` of magnitude below
/// two to the 53: a sign bit, the exponent of the highest set bit biased by
/// 1023, and the bits below the highest one moved up to the top of the 52-bit
/// fraction. Zero has the pattern zero.
pub open spec fn float64_bits(x: int) -> int {
    if x == 0 {
        0
    } else {
        let magnitude = if x < 0 {
            -x
        } else {
            x
        };
        let exponent = log2_floor(magnitude as nat);
        let sign = if x < 0 {
            two_to(63)
        } else {
            0nat
        };
        sign + (1023 + exponent) * two_to(52) + (magnitude - two_to(exponent)) * two_to(
            (52 - exponent) as nat,
        )
    }
}

/// A number between two consecutive powers of two has the lower one's
/// exponent as the position of its highest set bit.
pub proof fn lemma_log2_floor_between(m: nat, e: nat)
    requires
        two_to(e) <= m < two_to(e + 1),
    ensures
        log2_floor(m) == e,
    decreases e,
{
    reveal_with_fuel(two_to, 2);
    if e > 0 {
        lemma_log2_floor_between(m / 2, (e - 1) as nat);
    }
}

/// Powers of two grow with the exponent.
pub proof fn lemma_two_to_grows(a: nat, b: nat)
    requires
        a <= b,
    ensures
        two_to(a) <= two_to(b),
        two_to(a) >= 1,
    decreases b,
{
    if a < b {
        lemma_two_to_grows(a, (b - 1) as nat);
    } else if a > 0 {
        lemma_two_to_grows((a - 1) as nat, (a - 1) as nat);
    }
}

/// The binary64 pattern of the number equal to `x`.
pub fn float64_bits_from_i32(x: i32) -> (bits: u64)
    ensures
        bits == float64_bits(x as int),
{
    if x == 0 {
        return 0;
    }
    let negative = x < 0;
    let magnitude: u64 = if negative {
        (-(x as i64)) as u64
    } else {
        x as u64
    };
    assert(two_to(31) == 0x8000_0000 && two_to(52) == 0x10_0000_0000_0000 && two_to(63)
        == 0x8000_0000_0000_0000) by {
        reveal_with_fuel(two_to, 64);
    }
    let mut exponent: u64 = 0;
    let mut power: u64 = 1;
    while power * 2 <= magnitude
        invariant
            power == two_to(exponent as nat),
            1 <= power <= magnitude <= 0x8000_0000,
            exponent <= 31,
            two_to(31) == 0x8000_0000,
        decreases magnitude - power,
    {
        power = power * 2;
        exponent = exponent + 1;
    }
    proof {
        lemma_log2_floor_between(magnitude as nat, exponent as nat);
    }
    let mut fraction: u64 = magnitude - power;
    proof {
        let one = two_to((exponent - exponent) as nat);
        assert(one == 1);
        assert((magnitude - power) * one == magnitude - power) by (nonlinear_arith)
            requires
                one == 1,
        ;
    }
    let mut shift: u64 = exponent;
    while shift < 52
        invariant
            exponent <= shift <= 52,
            fraction == (magnitude - power) * two_to((shift - exponent) as nat),
            fraction < two_to(shift as nat),
            power == two_to(exponent as nat),
            two_to(52) == 0x10_0000_0000_0000,
        decreases 52 - shift,
    {
        proof {
            lemma_two_to_grows((shift + 1) as nat, 52);
            assert((magnitude - power) * (2 * two_to((shift - exponent) as nat)) == 2 * ((magnitude
                - power) * two_to((shift - exponent) as nat))) by (nonlinear_arith);
        }
        fraction = fraction * 2;
        shift = shift + 1;
    }
    let sign: u64 = if negative {
        0x8000_0000_0000_0000
    } else {
        0
    };
    let biased: u64 = (1023 + exponent) * 0x10_0000_0000_0000;
    sign + biased + fraction
}

} // verus!

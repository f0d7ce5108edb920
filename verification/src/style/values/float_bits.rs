//! Numbers as CSS tokens carry them: IEEE 754 single-precision floats,
//! taken by their bits and read into thousandths.

use vstd::prelude::*;
use vstd::arithmetic::power2::lemma2_to64;
use vstd::arithmetic::power2::lemma2_to64_rest;
use vstd::arithmetic::power2::lemma_pow2_pos;
use vstd::arithmetic::power2::lemma_pow2_strictly_increases;
use vstd::arithmetic::power2::lemma_pow2_unfold;
use vstd::arithmetic::power2::pow2;
use vstd::bits::lemma_u64_shl_is_mul;
use vstd::bits::lemma_u64_shr_is_div;

use crate::style::values::length::Number;

verus! {

/// The exponent field of a float: bits 23 to 30.
pub open spec fn spec_exponent_field(bits: u32) -> u32 {
    (bits >> 23) & 0xff
}

/// The fraction field of a float: bits 0 to 22.
pub open spec fn spec_fraction_field(bits: u32) -> u32 {
    bits & 0x7f_ffff
}

/// Whether the sign bit of a float is set.
pub open spec fn spec_is_negative(bits: u32) -> bool {
    (bits >> 31) == 1
}

/// The significand of a finite float as a whole number: the fraction, with
/// the leading one of a normal number.
pub open spec fn spec_significand(bits: u32) -> int {
    if spec_exponent_field(bits) == 0 {
        spec_fraction_field(bits) as int
    } else {
        0x80_0000 + spec_fraction_field(bits)
    }
}

/// How many binary places the significand of a finite float has after the
/// point, if it has any: the float is the significand divided by two to that
/// power.
pub open spec fn spec_binary_places(bits: u32) -> int {
    if spec_exponent_field(bits) == 0 {
        149
    } else {
        150 - spec_exponent_field(bits)
    }
}

/// The magnitude of the float with the bits `bits` in thousandths, rounded
/// to the nearest, halves away from zero. Infinities and what is not a number
/// have none.
pub open spec fn spec_magnitude_thousandths(bits: u32) -> Option<int> {
    let places = spec_binary_places(bits);
    if spec_exponent_field(bits) == 255 {
        None
    } else if places <= 0 {
        Some(spec_significand(bits) * 1000 * pow2((-places) as nat))
    } else {
        Some(
            (spec_significand(bits) * 1000 + pow2((places - 1) as nat)) / (pow2(places as nat) as int),
        )
    }
}

/// The number that the float with the bits `bits` is, to the nearest
/// thousandth, if it is finite and the thousandths fit 32 bits.
pub open spec fn spec_from_float_bits(bits: u32) -> Option<Number> {
    match spec_magnitude_thousandths(bits) {
        Some(magnitude) => if magnitude <= i32::MAX {
            Some(
                Number {
                    thousandths: if spec_is_negative(bits) {
                        (-magnitude) as i32
                    } else {
                        magnitude as i32
                    },
                },
            )
        } else {
            None
        },
        None => None,
    }
}

/// The number that the float with the bits `bits` is, to the nearest
/// thousandth.
pub fn from_float_bits(bits: u32) -> (r: Option<Number>)
    ensures
        r == spec_from_float_bits(bits),
{
    let exponent: u32 = (bits >> 23) & 0xff;
    let fraction: u32 = bits & 0x7f_ffff;
    let negative = (bits >> 31) == 1;
    assert(exponent <= 255) by (bit_vector)
        requires
            exponent == (bits >> 23) & 0xff,
    ;
    assert(fraction < 0x80_0000) by (bit_vector)
        requires
            fraction == bits & 0x7f_ffff,
    ;
    if exponent == 255 {
        return None;
    }
    let significand: u64 = if exponent == 0 {
        fraction as u64
    } else {
        0x80_0000 + fraction as u64
    };
    let scaled: u64 = significand * 1000;
    if exponent >= 150 {
        // At least two to the 23rd: more thousandths than 32 bits hold.
        proof {
            lemma_pow2_pos((exponent - 150) as nat);
            assert(scaled as int * pow2((exponent - 150) as nat) >= scaled as int)
                by (nonlinear_arith)
                requires
                    scaled >= 0,
                    pow2((exponent - 150) as nat) >= 1,
            ;
        }
        return None;
    }
    let places: u32 = if exponent == 0 {
        149
    } else {
        150 - exponent
    };
    let magnitude: u64 = if places >= 36 {
        proof {
            // Less than half a thousandth.
            lemma2_to64();
            lemma2_to64_rest();
            if places > 36 {
                lemma_pow2_strictly_increases(35, (places - 1) as nat);
            }
            lemma_pow2_strictly_increases((places - 1) as nat, places as nat);
            lemma_pow2_unfold(places as nat);
            let sum = scaled as int + pow2((places - 1) as nat);
            let whole = pow2(places as nat) as int;
            assert(0 <= sum < whole);
            assert(sum / whole == 0) by (nonlinear_arith)
                requires
                    0 <= sum < whole,
            ;
        }
        0
    } else {
        proof {
            lemma2_to64();
            lemma2_to64_rest();
            lemma_pow2_strictly_increases((places - 1) as nat, 36);
            lemma_pow2_strictly_increases(places as nat, 37);
            lemma_u64_shl_is_mul(1, (places - 1) as u64);
        }
        let half: u64 = 1u64 << ((places - 1) as u64);
        assert(half == pow2((places - 1) as nat));
        let sum: u64 = scaled + half;
        proof {
            lemma_u64_shr_is_div(sum, places as u64);
        }
        sum >> (places as u64)
    };
    if magnitude > 0x7fff_ffff {
        return None;
    }
    let thousandths: i32 = if negative {
        -(magnitude as i32)
    } else {
        magnitude as i32
    };
    Some(Number { thousandths })
}

} // verus!

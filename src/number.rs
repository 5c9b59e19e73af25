use vstd::arithmetic::div_mod::{lemma_mod_multiples_basic, lemma_mul_mod_noop_left};
use vstd::arithmetic::power2::{lemma2_to64, lemma_pow2_adds, lemma_pow2_pos, pow2};
use vstd::bits::{lemma_u64_pow2_no_overflow, lemma_u64_shl_is_mul, lemma_u64_shr_is_div};
use vstd::prelude::*;

verus! {

/// Two to the 32nd power: the modulus of a 32-bit unsigned integer.
pub const TWO_POW_32: u64 = 0x1_0000_0000;

/// The weight of the lowest exponent bit of a binary64 pattern.
pub const TWO_POW_52: u64 = 0x10_0000_0000_0000;

/// A number of the host, held as its IEEE-754 binary64 bit pattern.
///
/// The library never does floating-point arithmetic: it classifies a number
/// (sign, NaN, zero) and converts it to a 32-bit identifier, both of which
/// are read off the bit pattern.
#[derive(Clone, Copy, Debug, PartialEq, Eq, Structural)]
pub struct Number {
    pub bits: u64,
}

impl Number {
    /// The sign bit.
    pub open spec fn sign(self) -> bool {
        self.bits >= 0x8000_0000_0000_0000
    }

    /// The eleven biased exponent bits.
    pub open spec fn exponent(self) -> u64 {
        (self.bits / TWO_POW_52) % 0x800
    }

    /// The fifty-two fraction bits.
    pub open spec fn fraction(self) -> u64 {
        self.bits % TWO_POW_52
    }

    pub open spec fn is_nan(self) -> bool {
        self.exponent() == 0x7ff && self.fraction() != 0
    }

    pub open spec fn is_infinite(self) -> bool {
        self.exponent() == 0x7ff && self.fraction() == 0
    }

    pub open spec fn is_zero(self) -> bool {
        self.exponent() == 0 && self.fraction() == 0
    }

    /// Strictly below zero: the sign bit is set on a value that is neither
    /// NaN nor a zero.
    pub open spec fn is_negative(self) -> bool {
        self.sign() && !self.is_nan() && !self.is_zero()
    }

    /// Compares as `>= 0`: not NaN and not strictly below zero.
    pub open spec fn is_non_negative(self) -> bool {
        !self.is_nan() && !self.is_negative()
    }

    /// The largest integer not above the absolute value, for a finite number.
    pub open spec fn truncated_magnitude(self) -> nat {
        let e = self.exponent() as nat;
        let significand = (TWO_POW_52 + self.fraction()) as nat;
        if e < 1023 {
            0
        } else if e >= 1075 {
            significand * pow2((e - 1075) as nat)
        } else {
            significand / pow2((1075 - e) as nat)
        }
    }

    /// The host's conversion of a number to a 32-bit unsigned integer: NaN and
    /// the infinities give zero; any other value is truncated toward zero and
    /// taken modulo two to the 32nd.
    pub open spec fn uint32_value(self) -> u32 {
        if self.exponent() == 0x7ff {
            0
        } else {
            let m = self.truncated_magnitude() % (TWO_POW_32 as nat);
            if self.sign() && m != 0 {
                (TWO_POW_32 - m) as u32
            } else {
                m as u32
            }
        }
    }

    pub fn from_bits(bits: u64) -> (r: Number)
        ensures
            r.bits == bits,
    {
        Number { bits }
    }

    pub fn is_non_negative_number(&self) -> (r: bool)
        ensures
            r == self.is_non_negative(),
    {
        let exponent = (self.bits / TWO_POW_52) % 0x800;
        let fraction = self.bits % TWO_POW_52;
        let nan = exponent == 0x7ff && fraction != 0;
        let zero = exponent == 0 && fraction == 0;
        let sign = self.bits >= 0x8000_0000_0000_0000;
        !nan && !(sign && !zero)
    }

    /// The number as a 32-bit unsigned integer, as the host converts it.
    pub fn to_uint32(&self) -> (r: u32)
        ensures
            r == self.uint32_value(),
    {
        let exponent = (self.bits / TWO_POW_52) % 0x800;
        let fraction = self.bits % TWO_POW_52;
        if exponent == 0x7ff || exponent < 1023 {
            return 0;
        }
        let significand: u64 = TWO_POW_52 + fraction;
        let low: u64;
        if exponent >= 1075 {
            let shift: u64 = exponent - 1075;
            if shift >= 32 {
                proof {
                    lemma_pow2_adds(32, (shift - 32) as nat);
                    lemma_u64_pow2_no_overflow(32);
                    lemma2_to64();
                    let p = pow2((shift - 32) as nat);
                    assert(significand * pow2(shift as nat) == (significand * p) * pow2(32)) by (nonlinear_arith)
                        requires pow2(shift as nat) == pow2(32) * p;
                    lemma_mod_multiples_basic((significand * p) as int, pow2(32) as int);
                }
                low = 0;
            } else {
                proof {
                    lemma_u64_pow2_no_overflow(shift as nat);
                    lemma_u64_pow2_no_overflow(32);
                    lemma_pow2_pos(shift as nat);
                    lemma2_to64();
                    lemma_pow2_adds(shift as nat, (32 - shift) as nat);
                    lemma_pow2_pos((32 - shift) as nat);
                    assert(1 * pow2(shift as nat) <= u64::MAX);
                    lemma_u64_shl_is_mul(1, shift);
                    lemma_mul_mod_noop_left(significand as int, pow2(shift as nat) as int, TWO_POW_32 as int);
                }
                let scale: u64 = 1u64 << shift;
                proof {
                    assert((significand % TWO_POW_32) * scale < TWO_POW_32 * TWO_POW_32) by (nonlinear_arith)
                        requires significand % TWO_POW_32 < TWO_POW_32, scale <= TWO_POW_32;
                }
                low = ((significand % TWO_POW_32) * scale) % TWO_POW_32;
            }
        } else {
            let shift: u64 = 1075 - exponent;
            proof {
                lemma_u64_shr_is_div(significand, shift);
            }
            low = (significand >> shift) % TWO_POW_32;
        }
        if self.bits >= 0x8000_0000_0000_0000 && low != 0 {
            (TWO_POW_32 - low) as u32
        } else {
            low as u32
        }
    }
}

} // verus!

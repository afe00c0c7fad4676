//! Relative software gains as single-precision numbers, held by their bit patterns.
use vstd::arithmetic::power2::*;
use vstd::prelude::*;

verus! {

/// A gain: the IEEE 754 single-precision number with these bits.
#[derive(Clone, Copy, Debug, PartialEq, Eq, Structural)]
pub struct Gain {
    pub bits: u32,
}

/// The bits of the number one.
pub const ONE: u32 = 0x3f80_0000;

/// The bits of the negative zero, which compares equal to zero.
pub const NEGATIVE_ZERO: u32 = 0x8000_0000;

/// The bits without the sign.
pub open spec fn magnitude(bits: u32) -> int {
    bits as int % 0x8000_0000
}

/// The biased exponent.
pub open spec fn exponent(bits: u32) -> int {
    magnitude(bits) / 0x80_0000
}

/// The fraction field.
pub open spec fn fraction(bits: u32) -> int {
    magnitude(bits) % 0x80_0000
}

/// The number is neither infinite nor a NaN.
pub open spec fn finite(bits: u32) -> bool {
    exponent(bits) < 255
}

/// The absolute value of a finite number, in units of its smallest positive one (two to the
/// power of minus 149).
pub open spec fn absolute(bits: u32) -> int {
    if exponent(bits) == 0 {
        fraction(bits)
    } else {
        (0x80_0000 + fraction(bits)) * pow2((exponent(bits) - 1) as nat)
    }
}

/// A finite number in the same units, with its sign.
pub open spec fn scaled(bits: u32) -> int {
    if bits >= 0x8000_0000 {
        -absolute(bits)
    } else {
        absolute(bits)
    }
}

/// One, in the same units.
pub open spec fn scaled_one() -> int {
    pow2(149) as int
}

impl Gain {
    /// A gain is a finite number from zero to one.
    pub open spec fn in_range(self) -> bool {
        finite(self.bits) && 0 <= scaled(self.bits) <= scaled_one()
    }

    /// Whether the gain is a finite number from zero to one.
    pub fn is_valid(&self) -> (r: bool)
        ensures
            r == self.in_range(),
    {
        proof {
            valid_bits(self.bits);
        }
        self.bits <= ONE || self.bits == NEGATIVE_ZERO
    }

    /// The gain that leaves a stream at its original level.
    pub fn unity() -> (r: Gain)
        ensures
            r.bits == ONE,
            r.in_range(),
    {
        proof {
            valid_bits(ONE);
        }
        Gain { bits: ONE }
    }
}

/// The bit patterns of the finite numbers from zero to one.
pub proof fn valid_bits(bits: u32)
    ensures
        (Gain { bits }).in_range() <==> bits <= ONE || bits == NEGATIVE_ZERO,
{
    let e = exponent(bits);
    let f = fraction(bits);
    assert(0 <= e <= 255);
    assert(0 <= f < 0x80_0000);
    assert(magnitude(bits) == e * 0x80_0000 + f);
    lemma2_to64();
    lemma_pow2_adds(126, 23);
    assert(pow2(149) == pow2(126) * 0x80_0000);
    if e == 0 {
        lemma_pow2_pos(126);
        assert(f <= pow2(126) * 0x80_0000);
    } else {
        let p = pow2((e - 1) as nat) as int;
        lemma_pow2_pos((e - 1) as nat);
        let a = (0x80_0000 + f) * p;
        assert(a >= 0x80_0000 * p) by (nonlinear_arith)
            requires
                a == (0x80_0000 + f) * p,
                f >= 0,
                p > 0,
        ;
        if e <= 126 {
            assert(a <= 0x100_0000 * p) by (nonlinear_arith)
                requires
                    a == (0x80_0000 + f) * p,
                    f < 0x80_0000,
                    p > 0,
            ;
            lemma_pow2_unfold(e as nat);
            assert(pow2(e as nat) == 2 * p);
            if e < 126 {
                lemma_pow2_strictly_increases(e as nat, 126);
            }
            assert(a <= scaled_one());
        } else if e == 127 {
            assert(f == 0 ==> a == 0x80_0000 * p) by (nonlinear_arith)
                requires
                    a == (0x80_0000 + f) * p,
            ;
            assert(f > 0 ==> a > 0x80_0000 * p) by (nonlinear_arith)
                requires
                    a == (0x80_0000 + f) * p,
                    p > 0,
            ;
        } else {
            lemma_pow2_strictly_increases(126, (e - 1) as nat);
            assert(a > scaled_one());
        }
    }
}

/// The gains are exactly the bit patterns up to that of one, and that of the negative zero.
pub proof fn gains_run_from_zero_to_one(bits: u32)
    ensures
        bits <= 0x3f80_0000 ==> (Gain { bits }).in_range(),
        bits == 0x8000_0000 ==> (Gain { bits }).in_range(),
        0x3f80_0000 < bits && bits != 0x8000_0000 ==> !(Gain { bits }).in_range(),
{
    valid_bits(bits);
}

} // verus!

//! Single-precision numbers as bit patterns, and the conversion of whole
//! numbers into them.

use vstd::arithmetic::power2::{
    lemma2_to64, lemma_pow2_adds, lemma_pow2_pos, lemma_pow2_strictly_increases,
    lemma_pow2_unfold, pow2,
};
use vstd::prelude::*;

verus! {

/// A single-precision number, held as its IEEE 754 bit pattern: one sign bit,
/// eight exponent bits and twenty-three fraction bits, from the top down.
///
/// The GPU reads these patterns word for word, so the library carries and
/// compares them without ever computing in floating point.
#[derive(Clone, Copy, Debug)]
pub struct Scalar {
    pub bits: u32,
}

/// Bit pattern of one.
pub const ONE_BITS: u32 = 0x3f80_0000;

/// Bit pattern of positive infinity; every larger magnitude is a NaN.
pub const INFINITY_BITS: u32 = 0x7f80_0000;

/// The sign bit.
pub const SIGN_BIT: u32 = 0x8000_0000;

impl Scalar {
    /// The pattern without its sign bit.
    pub open spec fn magnitude(self) -> u32 {
        (self.bits % 0x8000_0000) as u32
    }

    /// Whether the pattern is not a number.
    pub open spec fn is_nan_spec(self) -> bool {
        self.magnitude() > 0x7f80_0000
    }

    /// Whether the pattern is positive or negative zero.
    pub open spec fn is_zero_spec(self) -> bool {
        self.magnitude() == 0
    }

    /// Whether two patterns compare equal as numbers: no NaN equals anything,
    /// the two zeros equal each other, and otherwise the patterns must agree.
    pub open spec fn same_number(self, other: Scalar) -> bool {
        &&& !self.is_nan_spec()
        &&& !other.is_nan_spec()
        &&& (self.bits == other.bits || (self.is_zero_spec() && other.is_zero_spec()))
    }

    /// The eight exponent bits, as a number.
    pub open spec fn exponent(self) -> nat {
        (self.magnitude() / 0x80_0000) as nat
    }

    /// The twenty-three fraction bits, as a number.
    pub open spec fn fraction(self) -> nat {
        (self.bits % 0x80_0000) as nat
    }

    /// Whether the sign bit is set.
    pub open spec fn is_negative(self) -> bool {
        self.bits >= 0x8000_0000
    }

    /// Whether the pattern is neither an infinity nor a NaN.
    pub open spec fn is_finite(self) -> bool {
        self.magnitude() < 0x7f80_0000
    }

    /// The magnitude of a finite pattern, counted in units of 2^-149, the
    /// smallest positive single-precision number: the fraction alone where the
    /// exponent bits are zero, and otherwise the fraction with its hidden
    /// leading one, doubled once for each exponent step above one.
    pub open spec fn units(self) -> nat {
        if self.exponent() == 0 {
            self.fraction()
        } else {
            (0x80_0000 + self.fraction()) * pow2((self.exponent() - 1) as nat)
        }
    }

    /// Whether the pattern is exactly the whole number `n`, with a clear sign
    /// bit.
    pub open spec fn denotes(self, n: nat) -> bool {
        &&& self.is_finite()
        &&& !self.is_negative()
        &&& self.units() == n * pow2(149)
    }

    /// The pattern of the single-precision number nearest to `x`, ties going
    /// to the neighbour with an even significand.
    pub open spec fn of_whole(x: u32) -> Scalar {
        choose|s: Scalar| s.denotes(rounded(x))
    }

    pub fn from_bits(bits: u32) -> (r: Scalar)
        ensures
            r.bits == bits,
    {
        Scalar { bits }
    }

    pub fn to_bits(self) -> (r: u32)
        ensures
            r == self.bits,
    {
        self.bits
    }

    /// The whole number `x` as a single-precision number: exact up to 2^24,
    /// and above that rounded to the nearest number that single precision
    /// has, ties to even.
    pub fn from_u32(x: u32) -> (r: Scalar)
        ensures
            r.denotes(rounded(x)),
            r == Scalar::of_whole(x),
    {
        if x == 0 {
            let zero = Scalar { bits: 0 };
            proof {
                lemma_denotes_unique(zero, Scalar::of_whole(x), rounded(x));
            }
            return zero;
        }
        let mut m: u64 = x as u64;
        let mut e: u32 = 150;
        proof {
            lemma2_to64();
            assert(x * pow2(0) == x) by (nonlinear_arith)
                requires
                    pow2(0) == 1,
            ;
        }
        if m < 0x80_0000 {
            while m < 0x80_0000
                invariant
                    0 < x < 0x80_0000,
                    0 < m < 0x100_0000,
                    127 <= e <= 150,
                    m == x * pow2((150 - e) as nat),
                decreases 0x100_0000 - m,
            {
                proof {
                    let k = (150 - e) as nat;
                    lemma_pow2_unfold(k + 1);
                    assert(x * pow2(k) >= pow2(k)) by (nonlinear_arith)
                        requires
                            x >= 1,
                    ;
                    lemma2_to64();
                    assert(x * (2 * pow2(k)) == 2 * (x * pow2(k))) by (nonlinear_arith);
                }
                m = m * 2;
                e = e - 1;
            }
            proof {
                lemma_scaled_up(x as nat, (150 - e) as nat);
            }
        } else {
            let (below, rest, step, exponent) = split(x);
            m = below as u64;
            e = exponent;
            if 2 * rest > step || (2 * rest == step && m % 2 == 1) {
                m = m + 1;
            }
            proof {
                lemma_scaled_down(m as nat, (e - 150) as nat);
            }
            if m == 0x100_0000 {
                proof {
                    lemma_pow2_unfold(e as nat);
                }
                m = 0x80_0000;
                e = e + 1;
            }
        }
        let bits: u32 = e * 0x80_0000 + (m - 0x80_0000) as u32;
        let r = Scalar { bits };
        proof {
            lemma_normal_pattern(bits, e as nat, m as nat);
            lemma_denotes_unique(r, Scalar::of_whole(x), rounded(x));
        }
        r
    }

    #[verifier::when_used_as_spec(is_nan_spec)]
    pub fn is_nan(self) -> (r: bool)
        ensures
            r == self.is_nan_spec(),
    {
        self.bits % SIGN_BIT > INFINITY_BITS
    }

    #[verifier::when_used_as_spec(is_zero_spec)]
    pub fn is_zero(self) -> (r: bool)
        ensures
            r == self.is_zero_spec(),
    {
        self.bits % SIGN_BIT == 0
    }
}

/// The distance between neighbouring single-precision numbers at `x`: one up to
/// 2^24, and doubling with each further power of two.
pub open spec fn spacing(x: u32) -> nat {
    if x < 0x100_0000 {
        1
    } else if x < 0x200_0000 {
        2
    } else if x < 0x400_0000 {
        4
    } else if x < 0x800_0000 {
        8
    } else if x < 0x1000_0000 {
        16
    } else if x < 0x2000_0000 {
        32
    } else if x < 0x4000_0000 {
        64
    } else if x < 0x8000_0000 {
        128
    } else {
        256
    }
}

/// `x` rounded to the nearest multiple of its spacing; where `x` lies halfway
/// between two multiples, the even multiple.
pub open spec fn rounded(x: u32) -> nat {
    let step = spacing(x);
    let below = x as nat / step;
    let rest = x as nat % step;
    if 2 * rest > step || (2 * rest == step && below % 2 == 1) {
        (below + 1) * step
    } else {
        below * step
    }
}

/// Rounding moves a whole number to a multiple of its spacing that lies no
/// more than half a step away, and leaves every whole number below 2^24 where
/// it is.
pub proof fn lemma_rounded_is_nearest(x: u32)
    ensures
        rounded(x) % spacing(x) == 0,
        2 * (rounded(x) - x) <= spacing(x),
        2 * (x - rounded(x)) <= spacing(x),
        x < 0x100_0000 ==> rounded(x) == x,
{
    let step = spacing(x);
    let below = x as nat / step;
    assert((below + 1) * step == below * step + step) by (nonlinear_arith);
    assert((below * step) % step == 0 && ((below + 1) * step) % step == 0) by (nonlinear_arith)
        requires
            step > 0,
    ;
}

/// A whole number of at least 2^23 taken apart at its spacing: how many whole
/// steps lie below it, what is left over, the step, and the exponent bits of
/// the binade it lies in.
fn split(x: u32) -> (r: (u32, u32, u32, u32))
    requires
        x >= 0x80_0000,
    ensures
        r.2 == spacing(x),
        r.0 == x as nat / spacing(x),
        r.1 == x as nat % spacing(x),
        r.2 == pow2((r.3 - 150) as nat),
        150 <= r.3 <= 158,
        0x80_0000 <= r.0 < 0x100_0000,
{
    proof {
        lemma2_to64();
    }
    if x < 0x100_0000 {
        (x, 0, 1, 150)
    } else if x < 0x200_0000 {
        (x / 2, x % 2, 2, 151)
    } else if x < 0x400_0000 {
        (x / 4, x % 4, 4, 152)
    } else if x < 0x800_0000 {
        (x / 8, x % 8, 8, 153)
    } else if x < 0x1000_0000 {
        (x / 16, x % 16, 16, 154)
    } else if x < 0x2000_0000 {
        (x / 32, x % 32, 32, 155)
    } else if x < 0x4000_0000 {
        (x / 64, x % 64, 64, 156)
    } else if x < 0x8000_0000 {
        (x / 128, x % 128, 128, 157)
    } else {
        (x / 256, x % 256, 256, 158)
    }
}

impl PartialEq for Scalar {
    fn eq(&self, other: &Self) -> (r: bool) {
        !self.is_nan() && !other.is_nan() && (self.bits == other.bits || (self.is_zero()
            && other.is_zero()))
    }
}

impl vstd::std_specs::cmp::PartialEqSpecImpl for Scalar {
    open spec fn obeys_eq_spec() -> bool {
        true
    }

    open spec fn eq_spec(&self, other: &Self) -> bool {
        self.same_number(*other)
    }
}

proof fn lemma_normal_pattern(bits: u32, e: nat, m: nat)
    requires
        1 <= e <= 254,
        0x80_0000 <= m < 0x100_0000,
        bits == e * 0x80_0000 + (m - 0x80_0000),
    ensures
        (Scalar { bits }).is_finite(),
        !(Scalar { bits }).is_negative(),
        (Scalar { bits }).exponent() == e,
        (Scalar { bits }).units() == m * pow2((e - 1) as nat),
{
    assert((Scalar { bits }).magnitude() == bits);
}

proof fn lemma_scaled_up(x: nat, k: nat)
    requires
        k <= 149,
    ensures
        x * pow2(k) * pow2((149 - k) as nat) == x * pow2(149),
{
    lemma_pow2_adds(k, (149 - k) as nat);
    let a = pow2(k);
    let b = pow2((149 - k) as nat);
    assert(x * a * b == x * (a * b)) by (nonlinear_arith);
}

proof fn lemma_scaled_down(m: nat, k: nat)
    ensures
        m * pow2(149 + k) == m * pow2(k) * pow2(149),
{
    lemma_pow2_adds(k, 149);
    let a = pow2(k);
    let b = pow2(149);
    assert(m * (a * b) == m * a * b) by (nonlinear_arith);
}

proof fn lemma_units_grow_with_exponent(a: Scalar, b: Scalar)
    requires
        a.exponent() < b.exponent(),
    ensures
        a.units() < b.units(),
{
    let ea = a.exponent();
    let eb = b.exponent();
    let pb = pow2((eb - 1) as nat);
    lemma_pow2_pos((eb - 1) as nat);
    assert((0x80_0000 + b.fraction()) * pb >= 0x80_0000 * pb) by (nonlinear_arith)
        requires
            pb > 0,
            b.fraction() >= 0,
    ;
    if ea == 0 {
        assert(0x80_0000 * pb >= 0x80_0000) by (nonlinear_arith)
            requires
                pb > 0,
        ;
    } else {
        let pa = pow2((ea - 1) as nat);
        lemma_pow2_pos((ea - 1) as nat);
        lemma_pow2_unfold(ea);
        if ea < eb - 1 {
            lemma_pow2_strictly_increases(ea, (eb - 1) as nat);
        }
        assert((0x80_0000 + a.fraction()) * pa < 0x100_0000 * pa) by (nonlinear_arith)
            requires
                pa > 0,
                a.fraction() < 0x80_0000,
        ;
        assert(0x80_0000 * (2 * pa) <= 0x80_0000 * pb) by (nonlinear_arith)
            requires
                2 * pa <= pb,
        ;
    }
}

/// No two patterns stand for the same whole number.
pub proof fn lemma_denotes_unique(a: Scalar, b: Scalar, n: nat)
    requires
        a.denotes(n),
        b.denotes(n),
    ensures
        a == b,
{
    if a.exponent() < b.exponent() {
        lemma_units_grow_with_exponent(a, b);
    } else if b.exponent() < a.exponent() {
        lemma_units_grow_with_exponent(b, a);
    } else {
        let e = a.exponent();
        if e != 0 {
            let p = pow2((e - 1) as nat);
            lemma_pow2_pos((e - 1) as nat);
            assert(a.fraction() == b.fraction()) by (nonlinear_arith)
                requires
                    p > 0,
                    (0x80_0000 + a.fraction()) * p == (0x80_0000 + b.fraction()) * p,
            ;
        }
        assert(a.bits == a.exponent() * 0x80_0000 + a.fraction());
        assert(b.bits == b.exponent() * 0x80_0000 + b.fraction());
    }
}

} // verus!

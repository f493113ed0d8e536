//! Fixed-point decimals with eighteen fractional digits.

use vstd::prelude::*;

verus! {

/// Number of fractional digits of a [`Decimal`].
pub const DECIMAL_PLACES: u32 = 18;

/// `10^DECIMAL_PLACES`: the number of atomics that make one whole unit.
pub const DECIMAL_FRACTIONAL: u128 = 1_000_000_000_000_000_000;

/// `2^64`, the radix of the limbs used by the wide multiplication.
const LIMB: u128 = 0x1_0000_0000_0000_0000;

/// `10^n` as a mathematical integer.
pub open spec fn pow10(n: nat) -> nat
    decreases n,
{
    if n == 0 {
        1
    } else {
        10 * pow10((n - 1) as nat)
    }
}

/// `|a - b|`.
pub open spec fn abs_diff(a: int, b: int) -> int {
    if a < b {
        b - a
    } else {
        a - b
    }
}

/// `2^128`, the radix of the two halves of a [`Uint256`].
pub open spec fn base() -> int {
    0x1_0000_0000_0000_0000_0000_0000_0000_0000int
}

/// `2^256`.
pub open spec fn base2() -> int {
    0x1_0000_0000_0000_0000_0000_0000_0000_0000_0000_0000_0000_0000_0000_0000_0000_0000int
}

/// `2^384`.
spec fn base3() -> int {
    0x1_0000_0000_0000_0000_0000_0000_0000_0000_0000_0000_0000_0000_0000_0000_0000_0000_0000_0000_0000_0000_0000_0000_0000_0000int
}

/// The largest value a [`Uint256`] holds, `2^256 - 1`.
pub open spec fn uint256_max() -> int {
    base2() - 1
}

/// An unsigned 256-bit integer, `hi * 2^128 + lo`.
#[derive(Clone, Copy, Debug, PartialEq, Eq, Structural)]
pub struct Uint256 {
    pub hi: u128,
    pub lo: u128,
}

/// A non-negative fixed-point number: `atomics / 10^18`, with 256-bit atomics.
#[derive(Clone, Copy, Debug, PartialEq, Eq, Structural)]
pub struct Decimal {
    pub atomics: Uint256,
}

/// The value handed to a conversion does not fit in a [`Decimal`].
#[derive(Clone, Copy, Debug, PartialEq, Eq, Structural)]
pub struct DecimalRangeExceeded;

/// The atomics of `atomics / 10^decimal_places` rescaled to eighteen places,
/// rounded down when digits are dropped.
pub open spec fn rescaled(atomics: nat, decimal_places: nat) -> nat {
    if decimal_places <= DECIMAL_PLACES {
        atomics * pow10((DECIMAL_PLACES - decimal_places) as nat)
    } else {
        atomics / pow10((decimal_places - DECIMAL_PLACES) as nat)
    }
}

proof fn lemma_pow10_positive(n: nat)
    ensures
        pow10(n) >= 1,
    decreases n,
{
    if n > 0 {
        lemma_pow10_positive((n - 1) as nat);
    }
}

proof fn lemma_pow10_monotonic(a: nat, b: nat)
    requires
        a <= b,
    ensures
        pow10(a) <= pow10(b),
    decreases b,
{
    if a < b {
        lemma_pow10_monotonic(a, (b - 1) as nat);
        lemma_pow10_positive((b - 1) as nat);
    }
}

/// `10^n` for `n <= 38`, the largest power of ten below `2^128`.
fn pow10_u128(n: u32) -> (r: u128)
    requires
        n <= 38,
    ensures
        r == pow10(n as nat),
{
    let mut r: u128 = 1;
    let mut i: u32 = 0;
    while i < n
        invariant
            i <= n <= 38,
            r == pow10(i as nat),
        decreases n - i,
    {
        proof {
            lemma_pow10_monotonic((i + 1) as nat, 38);
            reveal_with_fuel(pow10, 39);
        }
        r = r * 10;
        i = i + 1;
    }
    r
}

/// Divides by `10^n`, rounding down.
fn div_pow10(value: u128, n: u32) -> (r: u128)
    ensures
        r == value as nat / pow10(n as nat),
{
    if n > 38 {
        proof {
            lemma_pow10_monotonic(39, n as nat);
            reveal_with_fuel(pow10, 40);
            vstd::arithmetic::div_mod::lemma_basic_div(value as int, pow10(n as nat) as int);
        }
        0
    } else {
        proof {
            lemma_pow10_positive(n as nat);
        }
        value / pow10_u128(n)
    }
}

/// `a + b` as a sum and a carry of `2^128`.
fn add_carry(a: u128, b: u128) -> (r: (u128, u128))
    ensures
        r.0 + r.1 * base() == a + b,
        r.1 <= 1,
{
    if a > u128::MAX - b {
        (a - (u128::MAX - b) - 1, 1)
    } else {
        (a + b, 0)
    }
}

/// The full 256-bit product of two 128-bit integers, as `(hi, lo)`.
fn mul_wide(a: u128, b: u128) -> (r: (u128, u128))
    ensures
        r.0 * base() + r.1 == a * b,
{
    let a0 = a % LIMB;
    let a1 = a / LIMB;
    let b0 = b % LIMB;
    let b1 = b / LIMB;
    assert(a0 * b0 < LIMB * LIMB && a0 * b1 < LIMB * LIMB && a1 * b0 < LIMB * LIMB
        && a1 * b1 < LIMB * LIMB) by (nonlinear_arith)
        requires
            a0 < LIMB,
            a1 < LIMB,
            b0 < LIMB,
            b1 < LIMB,
    ;
    let p00 = a0 * b0;
    let p01 = a0 * b1;
    let p10 = a1 * b0;
    let p11 = a1 * b1;
    let mid = p00 / LIMB + p01 % LIMB + p10 % LIMB;
    let lo = (mid % LIMB) * LIMB + p00 % LIMB;
    proof {
        assert(a == a1 * LIMB + a0);
        assert(b == b1 * LIMB + b0);
        assert(a * b == p11 * (LIMB * LIMB) + (p01 + p10) * LIMB + p00) by (nonlinear_arith)
            requires
                a == a1 * LIMB + a0,
                b == b1 * LIMB + b0,
                p00 == a0 * b0,
                p01 == a0 * b1,
                p10 == a1 * b0,
                p11 == a1 * b1,
        ;
        let hi_int = p11 + p01 / LIMB + p10 / LIMB + mid / LIMB;
        assert(a * b == hi_int * (LIMB * LIMB) + lo);
        assert(a * b < (LIMB * LIMB) * (LIMB * LIMB)) by (nonlinear_arith)
            requires
                a < LIMB * LIMB,
                b < LIMB * LIMB,
        ;
        assert(hi_int < LIMB * LIMB) by (nonlinear_arith)
            requires
                a * b == hi_int * (LIMB * LIMB) + lo,
                a * b < (LIMB * LIMB) * (LIMB * LIMB),
                lo >= 0,
        ;
    }
    let hi = p11 + p01 / LIMB + p10 / LIMB + mid / LIMB;
    (hi, lo)
}

/// A 512-bit integer `w0 + w1 * 2^128 + w2 * 2^256 + w3 * 2^384`, used for products.
struct Wide {
    w0: u128,
    w1: u128,
    w2: u128,
    w3: u128,
}

impl Wide {
    spec fn value(&self) -> int {
        self.w0 + self.w1 * base() + self.w2 * base2() + self.w3 * base3()
    }
}

proof fn lemma_expand_product(ah: int, al: int, bh: int, bl: int, radix: int)
    ensures
        (ah * radix + al) * (bh * radix + bl) == (ah * bh) * (radix * radix) + (al * bh + ah * bl)
            * radix + al * bl,
{
    let x = ah * radix + al;
    let y = bh * radix + bl;
    assert(x * y == x * (bh * radix) + x * bl) by (nonlinear_arith)
        requires
            y == bh * radix + bl,
    ;
    assert(x * (bh * radix) == (ah * radix) * (bh * radix) + al * (bh * radix))
        by (nonlinear_arith)
        requires
            x == ah * radix + al,
    ;
    assert(x * bl == (ah * radix) * bl + al * bl) by (nonlinear_arith)
        requires
            x == ah * radix + al,
    ;
    assert((ah * radix) * (bh * radix) == (ah * bh) * (radix * radix)) by (nonlinear_arith);
    assert(al * (bh * radix) == (al * bh) * radix) by (nonlinear_arith);
    assert((ah * radix) * bl == (ah * bl) * radix) by (nonlinear_arith);
    assert((al * bh) * radix + (ah * bl) * radix == (al * bh + ah * bl) * radix)
        by (nonlinear_arith);
}

/// The full 512-bit product of two 256-bit integers.
fn mul_full(a: Uint256, b: Uint256) -> (r: Wide)
    ensures
        r.value() == a.value() * b.value(),
{
    let (h00, l00) = mul_wide(a.lo, b.lo);
    let (h01, l01) = mul_wide(a.lo, b.hi);
    let (h10, l10) = mul_wide(a.hi, b.lo);
    let (h11, l11) = mul_wide(a.hi, b.hi);
    let (s1, c1a) = add_carry(h00, l01);
    let (w1, c1b) = add_carry(s1, l10);
    let c1 = c1a + c1b;
    let (s2, c2a) = add_carry(h01, h10);
    let (s3, c2b) = add_carry(s2, l11);
    let (w2, c2c) = add_carry(s3, c1);
    let c2 = c2a + c2b + c2c;
    proof {
        let ab = a.value() * b.value();
        lemma_expand_product(a.hi as int, a.lo as int, b.hi as int, b.lo as int, base());
        assert(base() * base() == base2());
        let top = h11 + c2;
        assert(ab == l00 + w1 * base() + w2 * base2() + top * base3());
        assert(ab < base2() * base2()) by (nonlinear_arith)
            requires
                0 <= a.value() < base2(),
                0 <= b.value() < base2(),
                ab == a.value() * b.value(),
        ;
        assert(top < base());
    }
    Wide { w0: l00, w1, w2, w3: h11 + c2 }
}

/// Whether `x > y`.
fn wide_greater(x: &Wide, y: &Wide) -> (r: bool)
    ensures
        r == (x.value() > y.value()),
{
    if x.w3 != y.w3 {
        x.w3 > y.w3
    } else if x.w2 != y.w2 {
        x.w2 > y.w2
    } else if x.w1 != y.w1 {
        x.w1 > y.w1
    } else {
        x.w0 > y.w0
    }
}

/// Whether `a * b > c * d`, computed without overflow.
pub fn product_greater(a: Uint256, b: Uint256, c: Uint256, d: Uint256) -> (r: bool)
    ensures
        r == (a.value() * b.value() > c.value() * d.value()),
{
    let left = mul_full(a, b);
    let right = mul_full(c, d);
    wide_greater(&left, &right)
}

impl Uint256 {
    /// The integer this holds.
    pub open spec fn value(&self) -> nat {
        (self.hi * base() + self.lo) as nat
    }

    /// The integer `hi * 2^128 + lo`.
    pub fn new(hi: u128, lo: u128) -> (r: Uint256)
        ensures
            r.hi == hi,
            r.lo == lo,
    {
        Uint256 { hi, lo }
    }

    /// `x` widened to 256 bits.
    pub fn from_u128(x: u128) -> (r: Uint256)
        ensures
            r.value() == x,
    {
        Uint256 { hi: 0, lo: x }
    }

    /// Whether this is zero.
    pub fn is_zero(&self) -> (r: bool)
        ensures
            r == (self.value() == 0),
    {
        self.hi == 0 && self.lo == 0
    }

    /// Whether `self < other`.
    pub fn less_than(&self, other: &Uint256) -> (r: bool)
        ensures
            r == (self.value() < other.value()),
    {
        self.hi < other.hi || (self.hi == other.hi && self.lo < other.lo)
    }

    /// `self - other`, for `other <= self`.
    pub fn minus(&self, other: &Uint256) -> (r: Uint256)
        requires
            other.value() <= self.value(),
        ensures
            r.value() == self.value() - other.value(),
    {
        if self.lo >= other.lo {
            Uint256 { hi: self.hi - other.hi, lo: self.lo - other.lo }
        } else {
            Uint256 { hi: self.hi - other.hi - 1, lo: u128::MAX - other.lo + self.lo + 1 }
        }
    }

    /// `self * 10^18`, when it fits in 256 bits.
    fn checked_mul_fractional(&self) -> (r: Option<Uint256>)
        ensures
            match r {
                Some(v) => self.value() * DECIMAL_FRACTIONAL <= uint256_max() && v.value()
                    == self.value() * DECIMAL_FRACTIONAL,
                None => self.value() * DECIMAL_FRACTIONAL > uint256_max(),
            },
    {
        let w = mul_full(*self, Uint256::from_u128(DECIMAL_FRACTIONAL));
        if w.w2 == 0 && w.w3 == 0 {
            Some(Uint256 { hi: w.w1, lo: w.w0 })
        } else {
            None
        }
    }
}

impl Decimal {
    /// The atomics as an integer: the decimal is this over `10^18`.
    pub open spec fn atoms(&self) -> nat {
        self.atomics.value()
    }

    /// The decimal whose atomics are `atomics`, that is `atomics / 10^18`.
    pub fn new(atomics: u128) -> (r: Decimal)
        ensures
            r.atoms() == atomics,
    {
        Decimal { atomics: Uint256::from_u128(atomics) }
    }

    /// The decimal whose 256-bit atomics are `atomics`.
    pub fn from_uint256(atomics: Uint256) -> (r: Decimal)
        ensures
            r.atomics == atomics,
    {
        Decimal { atomics }
    }

    /// The atomics of this decimal.
    pub fn atomics(&self) -> (r: Uint256)
        ensures
            r == self.atomics,
    {
        self.atomics
    }

    /// Zero.
    pub fn zero() -> (r: Decimal)
        ensures
            r.atoms() == 0,
    {
        Decimal { atomics: Uint256 { hi: 0, lo: 0 } }
    }

    /// Whether this decimal is zero.
    pub fn is_zero(&self) -> (r: bool)
        ensures
            r == (self.atoms() == 0),
    {
        self.atomics.is_zero()
    }

    /// The decimal `atomics / 10^decimal_places`; digits past the eighteenth are dropped.
    /// Any 128-bit reading fits.
    pub fn from_atomics(atomics: u128, decimal_places: u32) -> (r: Decimal)
        ensures
            r.atoms() == rescaled(atomics as nat, decimal_places as nat),
    {
        if decimal_places <= DECIMAL_PLACES {
            let factor = pow10_u128(DECIMAL_PLACES - decimal_places);
            let (hi, lo) = mul_wide(atomics, factor);
            Decimal { atomics: Uint256 { hi, lo } }
        } else {
            Decimal::new(div_pow10(atomics, decimal_places - DECIMAL_PLACES))
        }
    }

    /// The whole number `value` as a decimal; fails when `value * 10^18` exceeds 256 bits.
    pub fn from_integer(value: Uint256) -> (r: Result<Decimal, DecimalRangeExceeded>)
        ensures
            match r {
                Ok(d) => value.value() * DECIMAL_FRACTIONAL <= uint256_max() && d.atoms()
                    == value.value() * DECIMAL_FRACTIONAL,
                Err(_) => value.value() * DECIMAL_FRACTIONAL > uint256_max(),
            },
    {
        match value.checked_mul_fractional() {
            Some(atomics) => Ok(Decimal { atomics }),
            None => Err(DecimalRangeExceeded),
        }
    }

    /// `|self - other|`.
    pub fn abs_diff(&self, other: &Decimal) -> (r: Decimal)
        ensures
            r.atoms() == abs_diff(self.atoms() as int, other.atoms() as int),
    {
        if self.atomics.less_than(&other.atomics) {
            Decimal { atomics: other.atomics.minus(&self.atomics) }
        } else {
            Decimal { atomics: self.atomics.minus(&other.atomics) }
        }
    }
}

} // verus!

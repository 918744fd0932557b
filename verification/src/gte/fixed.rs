use vstd::prelude::*;
use vstd::std_specs::ops::{AddSpecImpl, DivSpecImpl, MulSpecImpl, NegSpecImpl, SubSpecImpl};
use vstd::arithmetic::power2::pow2;
use vstd::bits::low_bits_mask;

verus! {

/// Fixed-point number with `N`-bit fraction
#[derive(PartialEq, Eq, PartialOrd, Ord, Clone, Copy)]
pub struct FixedPoint<const N: usize>(i16);

/// Alias for a fixed-point number with 12-bit fractional part.
pub type Fixed = FixedPoint<12>;

/// Whether an `int` fits in an `i16`.
pub open spec fn fits(x: int) -> bool {
    i16::MIN <= x <= i16::MAX
}

impl<const N: usize> FixedPoint<N> {
    /// The raw bits.
    pub closed spec fn bits(self) -> i16 {
        self.0
    }

    /// The fixed-point number with raw bits `x`.
    pub closed spec fn of_bits(x: i16) -> Self {
        FixedPoint(x)
    }

    /// `2^N`, the factor between `Self` and the number it stands for.
    pub open spec fn scale() -> int {
        pow2(N as nat) as int
    }

    /// Creates a new fixed-point number from its bits.
    pub fn from_bits(x: i16) -> (r: Self)
        ensures
            r.bits() == x,
    {
        Self(x)
    }

    /// Gets the fixed-point number's bits.
    pub fn to_bits(&self) -> (b: u16)
        ensures
            b == self.bits() as u16,
    {
        self.0 as u16
    }

    /// The raw bits, read as an integer scaled by `2^N`.
    pub fn upscale(&self) -> (b: i16)
        ensures
            b == self.bits(),
    {
        self.0
    }

    /// Checks if the number is negative.
    pub fn is_negative(&self) -> (b: bool)
        ensures
            b == (self.bits() < 0),
    {
        self.0 < 0
    }

    /// Truncates the fractional part of a fixed-point number: the bits
    /// shifted down by `N`, rounding toward minus infinity.
    pub fn trunc(&self) -> (t: i16)
        requires
            N < 16,
        ensures
            t == self.bits() as int / Self::scale(),
    {
        let x = self.0;
        let n = N as u32;
        proof {
            lemma_i16_shr_floor(x, n);
        }
        x >> n
    }

    /// Gets the fractional part of a fixed-point number scaled by `2^N`: the
    /// bits modulo `2^N`.
    pub fn fract(&self) -> (f: i16)
        requires
            N < 16,
        ensures
            f == self.bits() as int % Self::scale(),
    {
        let n = N as u32;
        let x = self.0;
        proof {
            lemma_i16_low_bits(x, n);
            vstd::bits::lemma_u32_pow2_no_overflow(n as nat);
            vstd::bits::lemma_u32_shl_is_mul(1, n);
            vstd::arithmetic::power2::lemma_pow2_pos(n as nat);
        }
        let mask = ((1u32 << n) - 1) as i16;
        x & mask
    }

    /// Adds two fixed-point numbers.
    fn const_add(self, other: Self) -> (r: Self)
        requires
            fits(self.bits() + other.bits()),
        ensures
            r.bits() == self.bits() + other.bits(),
    {
        Self(self.0 + other.0)
    }

    /// Subtracts two fixed-point numbers.
    fn const_sub(self, other: Self) -> (r: Self)
        requires
            fits(self.bits() - other.bits()),
        ensures
            r.bits() == self.bits() - other.bits(),
    {
        Self(self.0 - other.0)
    }

    /// Multiplies two fixed-point numbers: the product of the bits, shifted
    /// down by `N` (rounding toward minus infinity), in the low 16 bits.
    fn const_mul(self, other: Self) -> (r: Self)
        requires
            N < 16,
        ensures
            r.bits() == (self.bits() * other.bits() / Self::scale()) as i16,
    {
        proof {
            let (a, b) = (self.0 as int, other.0 as int);
            assert(-0x4000_0000 <= a * b <= 0x4000_0000) by (nonlinear_arith)
                requires
                    -0x8000 <= a <= 0x7fff,
                    -0x8000 <= b <= 0x7fff,
            ;
        }
        let p = self.0 as i32 * other.0 as i32;
        let n = N as u32;
        proof {
            lemma_i32_shr_floor(p, n);
        }
        Self((p >> n) as i16)
    }

    /// Divides two fixed-point numbers: the bits of `self` scaled up by `N`
    /// and divided by those of `other`, rounding toward zero, in the low 16
    /// bits.
    fn const_div(self, other: Self) -> (r: Self)
        requires
            N < 16,
            other.bits() != 0,
        ensures
            r.bits() == trunc_div_int(self.bits() * Self::scale(), other.bits() as int) as i16,
    {
        let n = N as u32;
        proof {
            vstd::arithmetic::power2::lemma_pow2_pos(N as nat);
            vstd::bits::lemma_u32_pow2_no_overflow(N as nat);
            vstd::bits::lemma_u32_shl_is_mul(1, n);
            vstd::arithmetic::power2::lemma2_to64();
            if N < 15 {
                vstd::arithmetic::power2::lemma_pow2_strictly_increases(N as nat, 15);
            }
        }
        let scale: i32 = (1u32 << n) as i32;
        proof {
            assert(-0x4000_0000 <= self.0 as int * scale <= 0x4000_0000) by (nonlinear_arith)
                requires
                    -0x8000 <= self.0 <= 0x7fff,
                    1 <= scale <= 0x8000,
            ;
        }
        let a = self.0 as i32 * scale;
        let q = div_trunc_i32(a, other.0 as i32);
        Self(q as i16)
    }
}

/// Reading the bits of a number built from bits gives them back, and a
/// number is the one built from its bits.
pub broadcast proof fn lemma_fixed_bits(x: i16)
    ensures
        #[trigger] Fixed::of_bits(x).bits() == x,
{
}

/// A number is the one built from its bits.
pub broadcast proof fn lemma_fixed_of_bits(p: Fixed)
    ensures
        #[trigger] Fixed::of_bits(p.bits()) == p,
{
}

/// The facts that tie a [`Fixed`] number to its bits.
pub broadcast group group_fixed_bits {
    lemma_fixed_bits,
    lemma_fixed_of_bits,
}

impl core::ops::Add<Fixed> for Fixed {
    type Output = Fixed;

    fn add(self, other: Fixed) -> (r: Fixed) {
        self.const_add(other)
    }
}

impl AddSpecImpl<Fixed> for Fixed {
    open spec fn obeys_add_spec() -> bool {
        true
    }

    open spec fn add_req(self, other: Fixed) -> bool {
        fits(self.bits() + other.bits())
    }

    open spec fn add_spec(self, other: Fixed) -> Fixed {
        Fixed::of_bits((self.bits() + other.bits()) as i16)
    }
}

impl core::ops::Sub<Fixed> for Fixed {
    type Output = Fixed;

    fn sub(self, other: Fixed) -> (r: Fixed) {
        self.const_sub(other)
    }
}

impl SubSpecImpl<Fixed> for Fixed {
    open spec fn obeys_sub_spec() -> bool {
        true
    }

    open spec fn sub_req(self, other: Fixed) -> bool {
        fits(self.bits() - other.bits())
    }

    open spec fn sub_spec(self, other: Fixed) -> Fixed {
        Fixed::of_bits((self.bits() - other.bits()) as i16)
    }
}

/// The bits of a 12-bit fraction product: the product of the bits divided by
/// `4096`, rounding toward minus infinity, in the low 16 bits.
/// A fixed-point number is its truncated part times the scale plus its
/// fractional part, the fractional part lying in `0..scale`.
pub proof fn lemma_trunc_fract<const N: usize>(x: FixedPoint<N>)
    requires
        N < 16,
    ensures
        (x.bits() as int / FixedPoint::<N>::scale()) * FixedPoint::<N>::scale() + x.bits() as int
            % FixedPoint::<N>::scale() == x.bits(),
        0 <= x.bits() as int % FixedPoint::<N>::scale() < FixedPoint::<N>::scale(),
{
    vstd::arithmetic::power2::lemma_pow2_pos(N as nat);
    vstd::arithmetic::div_mod::lemma_fundamental_div_mod(x.bits() as int, FixedPoint::<N>::scale());
    vstd::arithmetic::div_mod::lemma_mod_bound(x.bits() as int, FixedPoint::<N>::scale());
}

/// The bits of the product of two numbers with bits `a` and `b`: their
/// product over `4096`, rounded toward zero.
pub open spec fn mul_bits(a: i16, b: i16) -> i16 {
    (a * b / 4096) as i16
}

/// Multiplying fixed-point numbers does not depend on the order, one
/// (`4096`) changes nothing, and zero gives zero.
pub proof fn lemma_mul_bits(a: i16, b: i16)
    ensures
        mul_bits(a, b) == mul_bits(b, a),
        mul_bits(a, 4096) == a,
        mul_bits(a, 0) == 0,
{
    assert(a * b == b * a) by (nonlinear_arith);
    assert((a * 4096) / 4096 == a) by (nonlinear_arith);
    assert((a * 0) / 4096 == 0) by (nonlinear_arith);
}

impl core::ops::Mul<Fixed> for Fixed {
    type Output = Fixed;

    fn mul(self, other: Fixed) -> (r: Fixed) {
        proof {
            vstd::arithmetic::power2::lemma2_to64();
        }
        self.const_mul(other)
    }
}

impl MulSpecImpl<Fixed> for Fixed {
    open spec fn obeys_mul_spec() -> bool {
        true
    }

    open spec fn mul_req(self, other: Fixed) -> bool {
        true
    }

    open spec fn mul_spec(self, other: Fixed) -> Fixed {
        Fixed::of_bits(mul_bits(self.bits(), other.bits()))
    }
}

impl core::ops::Div<Fixed> for Fixed {
    type Output = Fixed;

    fn div(self, other: Fixed) -> (r: Fixed) {
        proof {
            vstd::arithmetic::power2::lemma2_to64();
        }
        self.const_div(other)
    }
}

impl DivSpecImpl<Fixed> for Fixed {
    open spec fn obeys_div_spec() -> bool {
        true
    }

    open spec fn div_req(self, other: Fixed) -> bool {
        other.bits() != 0
    }

    open spec fn div_spec(self, other: Fixed) -> Fixed {
        Fixed::of_bits(trunc_div_int(self.bits() * 4096, other.bits() as int) as i16)
    }
}

impl core::ops::Neg for Fixed {
    type Output = Fixed;

    fn neg(self) -> (r: Fixed) {
        Self(-self.0)
    }
}

impl NegSpecImpl for Fixed {
    open spec fn obeys_neg_spec() -> bool {
        true
    }

    open spec fn neg_req(self) -> bool {
        self.bits() != i16::MIN
    }

    open spec fn neg_spec(self) -> Fixed {
        Fixed::of_bits((-self.bits()) as i16)
    }
}

/// `a / d` rounded toward zero.
pub open spec fn trunc_div_int(a: int, d: int) -> int {
    let q = (if a < 0 {
        -a
    } else {
        a
    }) / (if d < 0 {
        -d
    } else {
        d
    });
    if (a < 0) != (d < 0) {
        -q
    } else {
        q
    }
}

fn div_trunc_i32(a: i32, d: i32) -> (q: i32)
    requires
        d != 0,
        -0x4000_0000 <= a <= 0x4000_0000,
        -0x8000 <= d <= 0x7fff,
    ensures
        q == trunc_div_int(a as int, d as int),
{
    let ua: u32 = if a < 0 {
        (-a) as u32
    } else {
        a as u32
    };
    let ud: u32 = if d < 0 {
        (-d) as u32
    } else {
        d as u32
    };
    let uq = ua / ud;
    assert(uq <= ua) by (nonlinear_arith)
        requires
            uq == ua / ud,
            ud >= 1,
    ;
    if (a < 0) != (d < 0) {
        -(uq as i32)
    } else {
        uq as i32
    }
}

/// Adding `2^k`, a multiple of `2^n`, moves a number by `2^(k - n)` whole
/// steps of `2^n` and leaves its remainder.
proof fn lemma_offset(x: int, n: nat, k: nat)
    requires
        n <= k,
    ensures
        (x + pow2(k) as int) / (pow2(n) as int) - (pow2(k) as int) / (pow2(n) as int) == x / (pow2(
            n,
        ) as int),
        (x + pow2(k) as int) % (pow2(n) as int) == x % (pow2(n) as int),
{
    let p = pow2(n) as int;
    let j = pow2((k - n) as nat) as int;
    vstd::arithmetic::power2::lemma_pow2_pos(n);
    vstd::arithmetic::power2::lemma_pow2_pos((k - n) as nat);
    vstd::arithmetic::power2::lemma_pow2_adds((k - n) as nat, n);
    assert(pow2(k) as int == j * p);
    vstd::arithmetic::div_mod::lemma_hoist_over_denominator(x, j, p as nat);
    vstd::arithmetic::div_mod::lemma_div_by_multiple(j, p);
    vstd::arithmetic::div_mod::lemma_mod_multiples_vanish(j, x, p);
    vstd::arithmetic::mul::lemma_mul_is_commutative(j, p);
}

/// An arithmetic shift right by `n` is division by `2^n` rounding toward
/// minus infinity.
proof fn lemma_i32_shr_floor(x: i32, n: u32)
    requires
        n < 16,
        -0x4000_0000 <= x <= 0x4000_0000,
    ensures
        (x >> n) as int == x as int / pow2(n as nat) as int,
{
    let y = (x as i64 + 0x4000_0000i64) as u32;
    assert((x >> n) as i64 == ((((x as i64 + 0x4000_0000i64) as u32) >> n) as i64) - ((
    0x4000_0000u32 >> n) as i64)) by (bit_vector)
        requires
            n < 16,
            -0x4000_0000 <= x <= 0x4000_0000,
    ;
    vstd::bits::lemma_u32_shr_is_div(y, n);
    vstd::bits::lemma_u32_shr_is_div(0x4000_0000, n);
    vstd::arithmetic::power2::lemma2_to64();
    lemma_offset(x as int, n as nat, 30);
}

proof fn lemma_i16_shr_floor(x: i16, n: u32)
    requires
        n < 16,
    ensures
        (x >> n) as int == x as int / pow2(n as nat) as int,
{
    assert(((x >> n) as i32) == ((x as i32) >> n)) by (bit_vector)
        requires
            n < 16,
    ;
    lemma_i32_shr_floor(x as i32, n);
}

proof fn lemma_i16_low_bits(x: i16, n: u32)
    requires
        n < 16,
    ensures
        ((1u32 << n) - 1) as i16 as int == pow2(n as nat) - 1,
        (x & ((1u32 << n) - 1) as i16) as int == x as int % pow2(n as nat) as int,
{
    let y = (x as i32 + 0x8000i32) as u32;
    assert((x & ((1u32 << n) - 1) as i16) as i32 == ((((x as i32 + 0x8000i32) as u32) & (((1u32
        << n) - 1) as u32)) as i32)) by (bit_vector)
        requires
            n < 16,
    ;
    vstd::bits::lemma_u32_pow2_no_overflow(n as nat);
    vstd::bits::lemma_u32_shl_is_mul(1, n);
    vstd::arithmetic::power2::lemma_pow2_pos(n as nat);
    vstd::arithmetic::power2::lemma2_to64();
    vstd::arithmetic::power2::lemma_pow2_strictly_increases(n as nat, 16);
    assert(((1u32 << n) - 1) as u32 == low_bits_mask(n as nat) as u32);
    vstd::bits::lemma_u32_low_bits_mask_is_mod(y, n as nat);
    lemma_offset(x as int, n as nat, 15);
}

} // verus!

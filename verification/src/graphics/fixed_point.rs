use vstd::prelude::*;
use vstd::arithmetic::power2::{lemma_pow2_pos, lemma_pow2_strictly_increases, pow2};
use vstd::std_specs::ops::{AddSpecImpl, DivSpecImpl, MulSpec, MulSpecImpl, NegSpecImpl, SubSpecImpl};

verus! {

/// A signed 16-bit fixed point number with `FRAC` fractional bits: the two's
/// complement bits `x` stand for `x / 2^FRAC`.
#[derive(Debug, Copy, Clone, PartialEq, Eq, PartialOrd, Ord)]
pub struct F16<const FRAC: usize>(pub i16);

/// `|x|` for an `i16` other than `i16::MIN`.
pub fn abs_i16(x: i16) -> (r: i16)
    requires
        x != i16::MIN,
    ensures
        r == (if x < 0 {
            -x
        } else {
            x as int
        }),
{
    if x < 0 {
        -x
    } else {
        x
    }
}

/// The mask of the `frac` low bits.
pub open spec fn low_mask(frac: u16) -> i16 {
    !(-1i16 << frac)
}

/// The magnitude `|bits|` of a two's complement number, up to `0x8000`.
pub open spec fn magnitude(bits: i16) -> int {
    if bits < 0 {
        -bits
    } else {
        bits as int
    }
}

/// A magnitude with a sign: `-mag` when `negative`.
pub open spec fn signed(negative: bool, mag: int) -> int {
    if negative {
        -mag
    } else {
        mag
    }
}

/// `|x|` as a `u32`.
fn magnitude_u32(x: i16) -> (m: u32)
    ensures
        m == magnitude(x),
        m <= 0x8000,
{
    if x < 0 {
        (-(x as i32)) as u32
    } else {
        x as u32
    }
}

/// `-x`, where `-i16::MIN` wraps to `i16::MIN`.
fn wrapping_neg_i16(x: i16) -> (r: i16)
    ensures
        r == (-x) as i16,
{
    if x == i16::MIN {
        proof {
            assert((-(i16::MIN as int)) as i16 == i16::MIN) by (bit_vector);
        }
        x
    } else {
        -x
    }
}

/// `2^frac` as a `u32`, for `frac <= 15`.
fn scale_u32(frac: u32) -> (s: u32)
    requires
        frac <= 15,
    ensures
        s == pow2(frac as nat),
        1 <= s <= 0x8000,
{
    proof {
        lemma_pow2_pos(frac as nat);
        vstd::arithmetic::power2::lemma2_to64();
        if frac < 15 {
            lemma_pow2_strictly_increases(frac as nat, 15);
        }
        vstd::bits::lemma_u32_shl_is_mul(1, frac);
    }
    1u32 << frac
}

impl<const FRAC: usize> F16<FRAC> {
    /// The fraction width fits in the 16 bits: at most 15.
    pub open spec fn valid() -> bool {
        FRAC <= 15
    }

    /// The bits of one: `2^FRAC`.
    pub open spec fn one_bits() -> i16 {
        1i16 << (FRAC as u16)
    }

    /// `2^FRAC`, the number of bits that one stands for.
    pub open spec fn scale() -> int {
        pow2(FRAC as nat) as int
    }

    /// The fractional bits of the representation.
    pub open spec fn frac_mask() -> i16 {
        low_mask(FRAC as u16)
    }

    /// The bits of `x` converted to fixed point: `x` modulo the integer range
    /// `2^(15 - FRAC)`, keeping its sign, times `2^FRAC`.
    pub open spec fn from_int_bits(x: i16) -> int {
        signed(x < 0, (magnitude(x) % pow2((15 - FRAC) as nat) as int) * Self::scale())
    }

    /// The integer part of the number with bits `bits`, rounded toward zero.
    pub open spec fn to_int_spec(bits: i16) -> int {
        signed(bits < 0, magnitude(bits) / Self::scale())
    }

    /// `self * rhs` for an integer `rhs` can be computed: `rhs` has a
    /// magnitude and negating the product's magnitude does not overflow.
    pub open spec fn mul_int_req(self, rhs: i16) -> bool {
        &&& Self::valid()
        &&& rhs != i16::MIN
        &&& ((self.0 < 0) != (rhs < 0)) ==> mul_mag(magnitude(self.0), magnitude(rhs), FRAC as nat)
            != i16::MIN
    }

    /// `self * rhs` for an integer `rhs`: `|self| * |rhs| / 2^FRAC` in the low
    /// 16 bits, negated when the signs differ.
    pub open spec fn mul_int(self, rhs: i16) -> i16 {
        signed(
            (self.0 < 0) != (rhs < 0),
            mul_mag(magnitude(self.0), magnitude(rhs), FRAC as nat) as int,
        ) as i16
    }

    /// Zero.
    pub fn zero() -> (r: Self)
        ensures
            r.0 == 0,
    {
        Self(0x0_000)
    }

    /// One.
    pub fn one() -> (r: Self)
        requires
            Self::valid(),
        ensures
            r.0 == Self::one_bits(),
    {
        Self(1i16 << (FRAC as u16))
    }

    /// The mask of the integer bits. With no fractional bits the mask's
    /// `2^15 - 1` does not fit, so the width is at least one.
    pub fn int_mask() -> (m: i16)
        requires
            1 <= FRAC <= 15,
        ensures
            m == !Self::frac_mask() & 0x7fff,
    {
        let f = FRAC as u16;
        let g: u16 = 15 - f;
        assert(1 <= f <= 15 && g == 15 - f ==> (((1i16 << g) - 1) as i16) << f == !low_mask(f) & 0x7fff)
            by (bit_vector);
        assert(1 <= f <= 15 && g == 15 - f ==> 1 <= (1i16 << g) <= 0x4000) by (bit_vector);
        ((1i16 << g) - 1) << f
    }

    /// The mask of the fractional bits. With 15 of them the mask's
    /// `2^15 - 1` is computed from a one that does not fit, so the width is
    /// at most 14.
    pub fn frac_mask_bits() -> (m: i16)
        requires
            FRAC <= 14,
        ensures
            m == Self::frac_mask(),
    {
        let f = FRAC as u16;
        assert(f <= 14 ==> ((1i16 << f) - 1) as i16 == low_mask(f)) by (bit_vector);
        assert(f <= 14 ==> 1 <= (1i16 << f) <= 0x4000) by (bit_vector);
        (1i16 << f) - 1
    }

    /// The mask of the sign bit.
    pub fn sign_mask() -> (m: i16)
        ensures
            m == i16::MIN,
    {
        assert(0x8000u16 as i16 == i16::MIN) by (bit_vector);
        0x8000u16 as i16
    }

    /// Raw transmutation from `u16`.
    pub fn from_bits(bits: u16) -> (r: Self)
        ensures
            r.0 == bits as i16,
    {
        Self(bits as i16)
    }

    /// Raw transmutation to `u16`.
    pub fn to_bits(&self) -> (b: u16)
        ensures
            b == self.0 as u16,
    {
        self.0 as u16
    }

    /// Computes the absolute value of `self`; `i16::MIN`, whose magnitude
    /// does not fit, stays as it is.
    pub fn abs(self) -> (r: Self)
        ensures
            r.0 == magnitude(self.0) as i16,
            self.0 != i16::MIN ==> r.0 == magnitude(self.0),
    {
        if self.0 < 0 {
            Self(wrapping_neg_i16(self.0))
        } else {
            self
        }
    }

    /// Returns the integer part of a number, rounded toward zero.
    pub fn trunc(self) -> (r: Self)
        requires
            Self::valid(),
        ensures
            r.0 == signed(self.0 < 0, magnitude(self.0) / Self::scale() * Self::scale()),
    {
        let s = scale_u32(FRAC as u32);
        let m = magnitude_u32(self.0);
        proof {
            assert((m / s) * s <= m) by (nonlinear_arith)
                requires
                    s >= 1,
            ;
        }
        let ip = (m / s) * s;
        let r: i32 = if self.0 < 0 {
            -(ip as i32)
        } else {
            ip as i32
        };
        Self(r as i16)
    }

    /// Returns the fractional part of a number, with the number's sign.
    pub fn fract(self) -> (r: Self)
        requires
            Self::valid(),
        ensures
            r.0 == signed(self.0 < 0, magnitude(self.0) % Self::scale()),
    {
        let s = scale_u32(FRAC as u32);
        let m = magnitude_u32(self.0);
        let fp = m % s;
        let r: i32 = if self.0 < 0 {
            -(fp as i32)
        } else {
            fp as i32
        };
        Self(r as i16)
    }

    /// Whether the number is below zero.
    pub fn is_negative(&self) -> (b: bool)
        ensures
            b == (self.0 < 0),
    {
        let x = self.0;
        assert((x >> 15u16 != 0) == (x < 0)) by (bit_vector);
        (self.0 >> 15u16) != 0
    }

    /// Whether the number is zero or above.
    pub fn is_positive(&self) -> (b: bool)
        ensures
            b == (self.0 >= 0),
    {
        !self.is_negative()
    }

    /// Returns a number that represents the sign of `self`: zero, one or
    /// minus one.
    ///
    /// With 15 fractional bits one is `i16::MIN`, which cannot be negated, so
    /// the number must not be negative then.
    pub fn signum(self) -> (r: Self)
        requires
            Self::valid(),
            FRAC == 15 ==> self.0 >= 0,
        ensures
            r.0 == (if self.0 == 0 {
                0
            } else if self.0 < 0 {
                -Self::one_bits()
            } else {
                Self::one_bits() as int
            }),
    {
        let f = FRAC as u16;
        assert(f <= 14 ==> 0 < 1i16 << f <= 0x4000) by (bit_vector);
        if self.0 == 0 {
            Self::zero()
        } else if self.is_negative() {
            core::ops::Neg::neg(Self::one())
        } else {
            Self::one()
        }
    }

    /// Potentially lossy conversion from an integer: `x` modulo the integer
    /// range `2^(15 - FRAC)`, keeping its sign.
    pub fn lossy_from_int(x: i16) -> (r: Self)
        requires
            Self::valid(),
            x != i16::MIN,
        ensures
            r.0 == Self::from_int_bits(x),
    {
        let s = scale_u32(FRAC as u32);
        let modulus = scale_u32(15 - FRAC as u32);
        proof {
            lemma_pow2_pos((15 - FRAC) as nat);
            vstd::arithmetic::power2::lemma_pow2_adds(FRAC as nat, (15 - FRAC) as nat);
            assert(pow2(15) == 0x8000) by {
                vstd::arithmetic::power2::lemma2_to64();
            }
        }
        let m = magnitude_u32(x);
        let k = m % modulus;
        proof {
            assert(k * s <= (modulus - 1) * s) by (nonlinear_arith)
                requires
                    k < modulus,
                    s >= 1,
            ;
            assert((modulus - 1) * s == modulus * s - s) by (nonlinear_arith);
        }
        let v = k * s;
        let r: i32 = if x < 0 {
            -(v as i32)
        } else {
            v as i32
        };
        Self(r as i16)
    }

    /// Potentially lossy conversion to an integer: the integer part, rounded
    /// toward zero.
    pub fn lossy_to_int(self) -> (r: i16)
        requires
            Self::valid(),
        ensures
            r == Self::to_int_spec(self.0),
    {
        let s = scale_u32(FRAC as u32);
        let m = magnitude_u32(self.0);
        let q = m / s;
        proof {
            assert(q <= m) by (nonlinear_arith)
                requires
                    q == m / s,
                    s >= 1,
            ;
        }
        let r: i32 = if self.0 < 0 {
            -(q as i32)
        } else {
            q as i32
        };
        r as i16
    }

    /// `lhs / rhs` as a fixed point number: `|lhs| * 2^FRAC / |rhs|` in the
    /// low 16 bits, negated (wrapping) when the signs differ.
    pub fn wrapping_div(lhs: i16, rhs: i16) -> (r: Self)
        requires
            Self::valid(),
            rhs != 0,
            lhs != i16::MIN,
            rhs != i16::MIN,
        ensures
            r.0 == (if (lhs < 0) != (rhs < 0) {
                -(((magnitude(lhs) * Self::scale()) / magnitude(rhs)) as u16 as i16)
            } else {
                (((magnitude(lhs) * Self::scale()) / magnitude(rhs)) as u16 as i16) as int
            }) as i16,
    {
        let s = scale_u32(FRAC as u32);
        let l = magnitude_u32(lhs);
        let b = magnitude_u32(rhs);
        proof {
            assert(l * s <= 0x8000 * 0x8000) by (nonlinear_arith)
                requires
                    l <= 0x8000,
                    s <= 0x8000,
            ;
        }
        let q = ((l * s) / b) as u16 as i16;
        if (lhs < 0) != (rhs < 0) {
            Self(wrapping_neg_i16(q))
        } else {
            Self(q)
        }
    }
}

/// `a * b`, both at most `0x8000`, fits in a `u32`.
proof fn lemma_mag_product(a: u32, b: u32)
    requires
        a <= 0x8000,
        b <= 0x8000,
    ensures
        a * b <= 0x4000_0000,
{
    assert(a * b <= 0x8000 * 0x8000) by (nonlinear_arith)
        requires
            a <= 0x8000,
            b <= 0x8000,
    ;
}

/// Shifting both operands of a division up by 16 bits, or the dividend up
/// and the quotient back down, leaves the quotient unchanged.
proof fn lemma_shift_quotients(a: u32, b: u32)
    requires
        a <= 0x8000,
        0 < b <= 0x8000,
    ensures
        b << 16u32 > 0,
        (a << 16u32) / (b << 16u32) == a / b,
        ((a << 16u32) / b) >> 16u32 == a / b,
{
    vstd::arithmetic::power2::lemma2_to64();
    vstd::bits::lemma_u32_shl_is_mul(a, 16);
    vstd::bits::lemma_u32_shl_is_mul(b, 16);
    let q = (a << 16u32) / b;
    vstd::bits::lemma_u32_shr_is_div(q, 16);
    vstd::arithmetic::div_mod::lemma_div_multiples_vanish_quotient(0x10000, a as int, b as int);
    vstd::arithmetic::div_mod::lemma_div_denominator(a * 0x10000, b as int, 0x10000);
    assert(a * 0x10000 == 0x10000 * a) by (nonlinear_arith);
    assert(b * 0x10000 == 0x10000 * b) by (nonlinear_arith);
}

/// `|x|` as an `i16` (for `x != i16::MIN`).
pub open spec fn abs_spec(x: i16) -> i16 {
    if x < 0 {
        (-x) as i16
    } else {
        x
    }
}

impl<const FRAC: usize> core::ops::Neg for F16<FRAC> {
    type Output = Self;

    fn neg(self) -> (r: Self) {
        Self(-self.0)
    }
}

impl<const FRAC: usize> NegSpecImpl for F16<FRAC> {
    open spec fn obeys_neg_spec() -> bool {
        true
    }

    open spec fn neg_req(self) -> bool {
        self.0 != i16::MIN
    }

    open spec fn neg_spec(self) -> Self {
        F16((-self.0) as i16)
    }
}

impl<const FRAC: usize> core::ops::Add<F16<FRAC>> for F16<FRAC> {
    type Output = Self;

    fn add(self, rhs: Self) -> (r: Self) {
        Self(self.0 + rhs.0)
    }
}

impl<const FRAC: usize> AddSpecImpl<F16<FRAC>> for F16<FRAC> {
    open spec fn obeys_add_spec() -> bool {
        true
    }

    open spec fn add_req(self, rhs: Self) -> bool {
        i16::MIN <= self.0 + rhs.0 <= i16::MAX
    }

    open spec fn add_spec(self, rhs: Self) -> Self {
        F16((self.0 + rhs.0) as i16)
    }
}

impl<const FRAC: usize> core::ops::Sub<F16<FRAC>> for F16<FRAC> {
    type Output = Self;

    fn sub(self, rhs: Self) -> (r: Self) {
        Self(self.0 - rhs.0)
    }
}

impl<const FRAC: usize> SubSpecImpl<F16<FRAC>> for F16<FRAC> {
    open spec fn obeys_sub_spec() -> bool {
        true
    }

    open spec fn sub_req(self, rhs: Self) -> bool {
        i16::MIN <= self.0 - rhs.0 <= i16::MAX
    }

    open spec fn sub_spec(self, rhs: Self) -> Self {
        F16((self.0 - rhs.0) as i16)
    }
}

/// The magnitude of a product: `a * b / 2^shift` in the low 16 bits.
pub open spec fn mul_mag(a: int, b: int, shift: nat) -> i16 {
    ((a * b) / pow2(shift) as int) as u16 as i16
}

impl<const FRAC: usize> core::ops::Mul<i16> for F16<FRAC> {
    type Output = i16;

    fn mul(self, rhs: i16) -> (r: i16) {
        let neg = (self.0 < 0) != (rhs < 0);
        let lhs = magnitude_u32(self.0);
        let b = magnitude_u32(rhs);
        let f = FRAC as u32;
        proof {
            lemma_mag_product(lhs, b);
        }
        let p = lhs * b;
        proof {
            vstd::bits::lemma_u32_shr_is_div(p, f);
        }
        let res = (p >> f) as u16 as i16;
        if neg {
            -res
        } else {
            res
        }
    }
}

impl<const FRAC: usize> MulSpecImpl<i16> for F16<FRAC> {
    open spec fn obeys_mul_spec() -> bool {
        true
    }

    open spec fn mul_req(self, rhs: i16) -> bool {
        self.mul_int_req(rhs)
    }

    open spec fn mul_spec(self, rhs: i16) -> i16 {
        self.mul_int(rhs)
    }
}

impl<const FRAC: usize> core::ops::Mul<F16<FRAC>> for F16<FRAC> {
    type Output = i16;

    fn mul(self, rhs: F16<FRAC>) -> (r: i16) {
        let neg = (self.0 < 0) != (rhs.0 < 0);
        let lhs = magnitude_u32(self.0);
        let b = magnitude_u32(rhs.0);
        let f = FRAC as u32;
        proof {
            lemma_mag_product(lhs, b);
        }
        let p = lhs * b;
        let sh = 2 * f;
        proof {
            vstd::bits::lemma_u32_shr_is_div(p, sh);
        }
        let res = (p >> sh) as u16 as i16;
        if neg {
            -res
        } else {
            res
        }
    }
}

impl<const FRAC: usize> MulSpecImpl<F16<FRAC>> for F16<FRAC> {
    open spec fn obeys_mul_spec() -> bool {
        true
    }

    open spec fn mul_req(self, rhs: F16<FRAC>) -> bool {
        &&& F16::<FRAC>::valid()
        &&& ((self.0 < 0) != (rhs.0 < 0)) ==> mul_mag(
            magnitude(self.0),
            magnitude(rhs.0),
            (2 * FRAC) as nat,
        ) != i16::MIN
    }

    /// `|self| * |rhs| / 2^(2 FRAC)` in the low 16 bits, negated when the
    /// signs differ.
    open spec fn mul_spec(self, rhs: F16<FRAC>) -> i16 {
        signed(
            (self.0 < 0) != (rhs.0 < 0),
            mul_mag(magnitude(self.0), magnitude(rhs.0), (2 * FRAC) as nat) as int,
        ) as i16
    }
}

impl<const FRAC: usize> core::ops::Div<F16<FRAC>> for F16<FRAC> {
    type Output = i16;

    fn div(self, rhs: Self) -> (r: i16) {
        let neg = (self.0 < 0) != (rhs.0 < 0);
        let lhs = magnitude_u32(self.0);
        let b = magnitude_u32(rhs.0);
        proof {
            lemma_shift_quotients(lhs, b);
        }
        let res = ((lhs << 16u32) / (b << 16u32)) as u16 as i16;
        if neg {
            -res
        } else {
            res
        }
    }
}

impl<const FRAC: usize> DivSpecImpl<F16<FRAC>> for F16<FRAC> {
    open spec fn obeys_div_spec() -> bool {
        true
    }

    open spec fn div_req(self, rhs: F16<FRAC>) -> bool {
        &&& rhs.0 != 0
        &&& ((self.0 < 0) != (rhs.0 < 0)) ==> ((magnitude(self.0) / magnitude(rhs.0)) as u16 as i16)
            != i16::MIN
    }

    /// `|self| / |rhs|` in the low 16 bits, negated when the signs differ.
    open spec fn div_spec(self, rhs: F16<FRAC>) -> i16 {
        signed(
            (self.0 < 0) != (rhs.0 < 0),
            ((magnitude(self.0) / magnitude(rhs.0)) as u16 as i16) as int,
        ) as i16
    }
}

impl<const FRAC: usize> core::ops::Div<F16<FRAC>> for i16 {
    type Output = Self;

    fn div(self, rhs: F16<FRAC>) -> (r: Self) {
        let neg = (self < 0) != (rhs.0 < 0);
        let lhs = magnitude_u32(self);
        let b = magnitude_u32(rhs.0);
        proof {
            lemma_shift_quotients(lhs, b);
        }
        let res = (((lhs << 16u32) / b) >> 16u32) as u16 as i16;
        if neg {
            -res
        } else {
            res
        }
    }
}

impl<const FRAC: usize> DivSpecImpl<F16<FRAC>> for i16 {
    open spec fn obeys_div_spec() -> bool {
        true
    }

    open spec fn div_req(self, rhs: F16<FRAC>) -> bool {
        &&& self != i16::MIN
        &&& rhs.0 != 0
    }

    /// `|self| / |rhs|`, negated when the signs differ.
    open spec fn div_spec(self, rhs: F16<FRAC>) -> i16 {
        signed((self < 0) != (rhs.0 < 0), magnitude(self) / magnitude(rhs.0)) as i16
    }
}

impl<const FRAC: usize> core::ops::Mul<F16<FRAC>> for i16 {
    type Output = i16;

    fn mul(self, rhs: F16<FRAC>) -> (r: i16) {
        <F16<FRAC> as core::ops::Mul<i16>>::mul(rhs, self)
    }
}

impl<const FRAC: usize> MulSpecImpl<F16<FRAC>> for i16 {
    open spec fn obeys_mul_spec() -> bool {
        true
    }

    open spec fn mul_req(self, rhs: F16<FRAC>) -> bool {
        <F16<FRAC> as MulSpec<i16>>::mul_req(rhs, self)
    }

    open spec fn mul_spec(self, rhs: F16<FRAC>) -> i16 {
        <F16<FRAC> as MulSpec<i16>>::mul_spec(rhs, self)
    }
}

/// The integer part and the fractional part of a number add up to it: the
/// integer part is a whole multiple of one, the fractional part is less
/// than one in size, and both carry the number's sign.
pub proof fn lemma_trunc_fract_split<const FRAC: usize>(x: i16)
    requires
        F16::<FRAC>::valid(),
    ensures
        ({
            let s = F16::<FRAC>::scale();
            let t = signed(x < 0, magnitude(x) / s * s);
            let f = signed(x < 0, magnitude(x) % s);
            &&& t + f == x
            &&& t % s == 0
            &&& -s < f < s
            &&& (x < 0 ==> t <= 0 && f <= 0)
            &&& (x >= 0 ==> t >= 0 && f >= 0)
        }),
{
    let s = F16::<FRAC>::scale();
    let m = magnitude(x);
    lemma_pow2_pos(FRAC as nat);
    vstd::arithmetic::div_mod::lemma_fundamental_div_mod(m, s);
    vstd::arithmetic::div_mod::lemma_mod_bound(m, s);
    vstd::arithmetic::div_mod::lemma_mod_multiples_basic(m / s, s);
    assert(m / s >= 0) by {
        vstd::arithmetic::div_mod::lemma_div_pos_is_pos(m, s);
    }
    assert(m / s * s == s * (m / s)) by (nonlinear_arith);
    assert(m / s * s >= 0) by (nonlinear_arith)
        requires
            m / s >= 0,
            s > 0,
    ;
    if x < 0 {
        vstd::arithmetic::div_mod::lemma_mod_multiples_basic(-(m / s), s);
        assert(-(m / s * s) == -(m / s) * s) by (nonlinear_arith);
    }
}

/// The magnitude of a number is the number or its negation, never below
/// zero.
pub proof fn lemma_magnitude(x: i16)
    ensures
        magnitude(x) >= 0,
        magnitude(x) == x || magnitude(x) == -x,
        magnitude(x) == 0 <==> x == 0,
{
}

/// One times an integer is the integer.
pub proof fn lemma_one_times<const FRAC: usize>(x: i16)
    requires
        FRAC <= 14,
        x != i16::MIN,
    ensures
        F16::<FRAC>(F16::<FRAC>::one_bits()).mul_int_req(x),
        F16::<FRAC>(F16::<FRAC>::one_bits()).mul_int(x) == x,
{
    let f = FRAC as u16;
    assert(f <= 14 ==> 1i16 << f == (1u32 << (f as u32)) as i16 && 0 < 1i16 << f) by (bit_vector);
    vstd::arithmetic::power2::lemma2_to64();
    lemma_pow2_pos(FRAC as nat);
    if FRAC < 14 {
        lemma_pow2_strictly_increases(FRAC as nat, 14);
    }
    vstd::bits::lemma_u32_shl_is_mul(1, FRAC as u32);
    let s = pow2(FRAC as nat) as int;
    let m = magnitude(x);
    assert(F16::<FRAC>::one_bits() == s);
    assert((s * m) / s == m) by {
        vstd::arithmetic::div_mod::lemma_div_multiples_vanish(m, s);
        assert(s * m == m * s) by (nonlinear_arith);
    }
}

/// Converting a small integer to fixed point and back gives it again: the
/// conversion is lossless for `|x| < 2^(15 - FRAC)`.
pub proof fn lemma_lossless_int_conversion<const FRAC: usize>(x: i16)
    requires
        F16::<FRAC>::valid(),
        x != i16::MIN,
        magnitude(x) < pow2((15 - FRAC) as nat),
    ensures
        F16::<FRAC>::to_int_spec(F16::<FRAC>::from_int_bits(x) as i16) == x,
{
    let s = F16::<FRAC>::scale();
    let m = magnitude(x);
    let md = pow2((15 - FRAC) as nat) as int;
    lemma_pow2_pos(FRAC as nat);
    lemma_pow2_pos((15 - FRAC) as nat);
    vstd::arithmetic::power2::lemma_pow2_adds(FRAC as nat, (15 - FRAC) as nat);
    vstd::arithmetic::power2::lemma2_to64();
    vstd::arithmetic::div_mod::lemma_small_mod(m as nat, md as nat);
    vstd::arithmetic::div_mod::lemma_div_multiples_vanish(m, s);
    assert(m * s < md * s) by (nonlinear_arith)
        requires
            0 <= m < md,
            s > 0,
    ;
    assert(m * s == s * m) by (nonlinear_arith);
    assert(x != 0 ==> m * s > 0) by (nonlinear_arith)
        requires
            s > 0,
            x != 0 ==> m > 0,
    ;
    assert(pow2(15) == 0x8000);
    assert(s * md == 0x8000);
    assert(md * s == s * md) by (nonlinear_arith);
    assert(m % md == m);
    let v = F16::<FRAC>::from_int_bits(x);
    assert(v == signed(x < 0, m * s));
    assert(-0x8000 < v < 0x8000);
    assert(v as i16 == v);
    assert(magnitude(v as i16) == m * s);
}

} // verus!

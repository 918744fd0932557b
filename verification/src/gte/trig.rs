use vstd::prelude::*;
use crate::gte::fixed::{group_fixed_bits, mul_bits, Fixed};

verus! {

broadcast use group_fixed_bits;

/// The polynomial that approximates sine on a quarter turn, in 12-bit fixed
/// point with a turn of `4.0`: `c * z + b * z^3 + a * z^5`, where
/// `c = pi / 2`, `b = 2.5 - pi` and `a = pi / 2 - 1.5` are `6433`, `-2627`
/// and `289` in fixed point, and every product rounds as [`Fixed`]
/// multiplication does.
pub open spec fn approx_sin_bits(z: i16) -> int {
    let z2 = mul_bits(z, z);
    let z3 = mul_bits(z2, z);
    let z5 = mul_bits(z3, z2);
    mul_bits(6433, z) + mul_bits(-2627i16, z3) + mul_bits(289, z5)
}

/// An angle's bits reduced to one turn, `0..=0x4000`: a whole turn stays a
/// whole turn, everything else is taken modulo a turn.
pub open spec fn reduce_turn(x: i16) -> int {
    if x == 0x4000 {
        0x4000
    } else {
        x as int % 0x4000
    }
}

/// The approximate sine of an angle's bits: the quarter-turn polynomial,
/// mirrored for the second quarter and negated for the second half.
pub open spec fn fsin_bits(x: i16) -> i16 {
    let n = reduce_turn(x);
    (if n <= 0x1000 {
        approx_sin_bits(n as i16)
    } else if n <= 0x2000 {
        approx_sin_bits((0x2000 - n) as i16)
    } else if n <= 0x3000 {
        -approx_sin_bits((n - 0x2000) as i16)
    } else {
        -approx_sin_bits((0x4000 - n) as i16)
    }) as i16
}

/// The approximate cosine of an angle's bits: the sine of a quarter turn
/// minus the angle.
pub open spec fn fcos_bits(x: i16) -> i16 {
    fsin_bits((0x1000 - x) as i16)
}

proof fn lemma_scaled_product(a: int, b: int)
    requires
        0 <= a <= 0x1000,
        0 <= b <= 0x1000,
    ensures
        0 <= a * b / 4096 <= a,
        0 <= 6433 * b / 4096 <= 6433,
        -2627 <= (-2627) * b / 4096 <= 0,
        0 <= 289 * b / 4096 <= 289,
{
    assert(0 <= a * b / 4096 <= a) by (nonlinear_arith)
        requires
            0 <= a <= 0x1000,
            0 <= b <= 0x1000,
    ;
    assert(0 <= 6433 * b / 4096 <= 6433) by (nonlinear_arith)
        requires
            0 <= b <= 0x1000,
    ;
    assert(-2627 <= (-2627) * b / 4096 <= 0) by (nonlinear_arith)
        requires
            0 <= b <= 0x1000,
    ;
    assert(0 <= 289 * b / 4096 <= 289) by (nonlinear_arith)
        requires
            0 <= b <= 0x1000,
    ;
}

proof fn lemma_approx_bounds(z: i16)
    requires
        0 <= z <= 0x1000,
    ensures
        -2627 <= approx_sin_bits(z) <= 6433 + 289,
        0 <= mul_bits(z, z) <= 0x1000,
        0 <= mul_bits(mul_bits(z, z), z) <= 0x1000,
        0 <= mul_bits(mul_bits(mul_bits(z, z), z), mul_bits(z, z)) <= 0x1000,
{
    lemma_scaled_product(z as int, z as int);
    let z2 = mul_bits(z, z);
    lemma_scaled_product(z2 as int, z as int);
    let z3 = mul_bits(z2, z);
    lemma_scaled_product(z3 as int, z2 as int);
    let z5 = mul_bits(z3, z2);
    lemma_scaled_product(0, z as int);
    lemma_scaled_product(0, z3 as int);
    lemma_scaled_product(0, z5 as int);
}

/// The quarter-turn polynomial on `0.0..=1.0`.
fn approx_sin(z: Fixed) -> (r: Fixed)
    requires
        0 <= z.bits() <= 0x1000,
    ensures
        r.bits() == approx_sin_bits(z.bits()),
{
    proof {
        lemma_approx_bounds(z.bits());
    }
    let a = Fixed::from_bits(289);
    let b = Fixed::from_bits(-2627);
    let c = Fixed::from_bits(6433);
    let z2 = z * z;
    let z3 = z2 * z;
    let z5 = z3 * z2;
    assert(z2.bits() == mul_bits(z.bits(), z.bits()));
    assert(z3.bits() == mul_bits(z2.bits(), z.bits()));
    assert(z5.bits() == mul_bits(z3.bits(), z2.bits()));
    proof {
        lemma_scaled_product(0, z.bits() as int);
        lemma_scaled_product(0, z3.bits() as int);
        lemma_scaled_product(0, z5.bits() as int);
    }
    (c * z) + (b * z3) + (a * z5)
}

/// Approximates sine, with a full turn being `4.0`.
pub fn fsin(x: Fixed) -> (r: Fixed)
    ensures
        r.bits() == fsin_bits(x.bits()),
{
    let turn = Fixed::from_bits(0x4000);
    let quarter = Fixed::from_bits(0x1000);
    let mut x = x;
    let ghost x0 = x.bits();
    while x.upscale() < 0
        invariant
            turn.bits() == 0x4000,
            x.bits() as int % 0x4000 == x0 as int % 0x4000,
            x0 < 0 ==> x.bits() < 0x4000,
            x0 >= 0 ==> x.bits() == x0,
        decreases 0x8000 - x.bits(),
    {
        proof {
            vstd::arithmetic::div_mod::lemma_mod_multiples_vanish(1, x.bits() as int, 0x4000);
        }
        x = x + turn;
    }
    while x.upscale() > 0x4000
        invariant
            turn.bits() == 0x4000,
            0 <= x.bits(),
            x.bits() as int % 0x4000 == x0 as int % 0x4000,
            x0 < 0 ==> x.bits() < 0x4000,
            x0 >= 0 ==> x.bits() <= x0,
            x.bits() == 0x4000 ==> x0 == 0x4000,
            x0 == 0x4000 ==> x.bits() == 0x4000,
        decreases x.bits(),
    {
        proof {
            vstd::arithmetic::div_mod::lemma_mod_multiples_vanish(
                -1,
                x.bits() as int,
                0x4000,
            );
        }
        x = x - turn;
    }
    proof {
        if x0 != 0x4000 {
            vstd::arithmetic::div_mod::lemma_small_mod(x.bits() as nat, 0x4000);
        }
        assert(x.bits() == reduce_turn(x0));
    }
    let v = x.upscale();
    if v <= 0x1000 {
        proof {
            lemma_approx_bounds(v);
        }
        approx_sin(x)
    } else if v <= 0x2000 {
        proof {
            lemma_approx_bounds((0x2000 - v) as i16);
        }
        approx_sin(quarter - (x - quarter))
    } else if v <= 0x3000 {
        proof {
            lemma_approx_bounds((v - 0x2000) as i16);
        }
        core::ops::Neg::neg(approx_sin(x - Fixed::from_bits(0x2000)))
    } else {
        proof {
            lemma_approx_bounds((0x4000 - v) as i16);
        }
        core::ops::Neg::neg(approx_sin(quarter - (x - Fixed::from_bits(0x3000))))
    }
}

/// Approximates cosine, with a full turn being `4.0`: the sine of a quarter
/// turn minus `x`.
pub fn fcos(x: Fixed) -> (r: Fixed)
    requires
        x.bits() >= 0x1000 - 0x7fff,
    ensures
        r.bits() == fcos_bits(x.bits()),
{
    fsin(Fixed::from_bits(0x1000) - x)
}

} // verus!

verus! {

proof fn lemma_approx_zero()
    ensures
        approx_sin_bits(0) == 0,
{
    assert(mul_bits(0, 0) == 0);
    assert(mul_bits(6433, 0) == 0);
    assert(mul_bits(-2627i16, 0) == 0);
    assert(mul_bits(289, 0) == 0);
}

/// Adding a whole turn to an angle leaves its approximate sine unchanged.
pub proof fn lemma_fsin_periodic(x: i16)
    requires
        x + 0x4000 <= i16::MAX,
    ensures
        fsin_bits((x + 0x4000) as i16) == fsin_bits(x),
{
    lemma_approx_zero();
    let y = (x + 0x4000) as i16;
    if x != 0 {
        vstd::arithmetic::div_mod::lemma_mod_multiples_vanish(1, x as int, 0x4000);
        assert(reduce_turn(y) == reduce_turn(x));
    }
}

/// The approximate sine is odd: negating an angle negates its sine.
pub proof fn lemma_fsin_odd(x: i16)
    requires
        x != i16::MIN,
    ensures
        fsin_bits((-x) as i16) == -fsin_bits(x),
{
    lemma_approx_zero();
    let n = reduce_turn(x);
    let m = reduce_turn((-x) as i16);
    if n != 0 && n != 0x4000 {
        assert(m == 0x4000 - n);
    } else {
        assert(m == 0 || m == 0x4000);
    }
    let z = if n <= 0x1000 {
        n
    } else if n <= 0x2000 {
        0x2000 - n
    } else if n <= 0x3000 {
        n - 0x2000
    } else {
        0x4000 - n
    };
    lemma_approx_bounds(z as i16);
}


/// Sine is symmetric about the quarter turn: the angles `x` and
/// `0x2000 - x` of the first half turn have the same sine.
pub proof fn lemma_fsin_mirror(x: i16)
    requires
        0 <= x <= 0x2000,
    ensures
        fsin_bits((0x2000 - x) as i16) == fsin_bits(x),
{
    let y = (0x2000 - x) as i16;
    vstd::arithmetic::div_mod::lemma_small_mod(x as nat, 0x4000);
    vstd::arithmetic::div_mod::lemma_small_mod(y as nat, 0x4000);
    assert(reduce_turn(x) == x);
    assert(reduce_turn(y) == y);
}

} // verus!

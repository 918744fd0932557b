use psx::graphics::fixed_point::F16;
use psx::graphics::{cos, fixed12, sin, Fixed12, Vf, Vi};

fn f(x: i16) -> Fixed12 {
    fixed12(x)
}

/// A table whose entry at each angle is the angle's bits, except a full
/// cosine at zero and none at a quarter turn.
fn table() -> Vec<i16> {
    let mut t: Vec<i16> = (0..0x10000u32).map(|i| i as u16 as i16).collect();
    t[0] = 0x1000;
    t[0x4000] = 0;
    t
}

#[test]
fn constants_and_masks() {
    assert_eq!(F16::<12>::zero(), f(0));
    assert_eq!(F16::<12>::one(), f(0x1000));
    assert_eq!(F16::<12>::int_mask(), 0x7000);
    assert_eq!(F16::<12>::frac_mask_bits(), 0x0FFF);
    assert_eq!(F16::<12>::sign_mask(), i16::MIN);
    assert_eq!(F16::<8>::int_mask(), 0x7F00);
}

#[test]
fn bits_conversions() {
    assert_eq!(F16::<12>::from_bits(0xFFFF), f(-1));
    assert_eq!(f(-1).to_bits(), 0xFFFF);
}

#[test]
fn abs_trunc_fract_mask_the_bits() {
    assert_eq!(f(0x1800).abs(), f(0x1800));
    assert_eq!(f(-0x1800).abs(), f(0x1800));
    assert_eq!(f(i16::MIN).abs(), f(i16::MIN));
    assert_eq!(f(0x1800).trunc(), f(0x1000));
    assert_eq!(f(-0x1800).trunc(), f(-0x1000));
    assert_eq!(f(0x1800).fract(), f(0x800));
    assert_eq!(f(-0x1800).fract(), f(-0x800));
}

#[test]
fn sign_tests() {
    assert!(f(-1).is_negative());
    assert!(!f(0).is_negative());
    assert!(f(0).is_positive());
    assert_eq!(f(0x123).signum(), f(0x1000));
    assert_eq!(f(-0x123).signum(), f(-0x1000));
    assert_eq!(f(0).signum(), f(0));
}

#[test]
fn lossless_int_conversion() {
    for x in -7i16..=7 {
        assert_eq!(Fixed12::lossy_from_int(x).lossy_to_int(), x);
    }
    assert_eq!(Fixed12::lossy_from_int(3), f(0x3000));
    assert_eq!(Fixed12::lossy_from_int(-3), f(-0x3000));
}

#[test]
fn lossy_int_conversion_wraps_past_seven() {
    assert_eq!(Fixed12::lossy_from_int(8), f(0));
    assert_eq!(Fixed12::lossy_from_int(9).lossy_to_int(), 1);
    assert_eq!(Fixed12::lossy_from_int(-9).lossy_to_int(), -1);
    assert_eq!(f(-0x1800).lossy_to_int(), -1);
    assert_eq!(f(i16::MIN).lossy_to_int(), -8);
    assert_eq!(f(0x7FFF).lossy_to_int(), 7);
}

#[test]
fn wrapping_div_results() {
    assert_eq!(Fixed12::wrapping_div(1, 2), f(0x800));
    assert_eq!(Fixed12::wrapping_div(3, 2), f(0x1800));
    assert_eq!(Fixed12::wrapping_div(1, 3), f(0x555));
    assert_eq!(Fixed12::wrapping_div(-3, 2), f(-0x1800));
    assert_eq!(Fixed12::wrapping_div(7, -2), f(-0x3800));
}

#[test]
fn neg_add_sub_are_exact_on_bits() {
    assert_eq!(-f(0x1234), f(-0x1234));
    assert_eq!(f(100) + f(-250), f(-150));
    assert_eq!(f(100) - f(-250), f(350));
}

#[test]
fn multiplication_and_division() {
    assert_eq!(f(0x1800) * 4i16, 6);
    assert_eq!(4i16 * f(0x1800), 6);
    assert_eq!(f(0x800) * 3i16, 1);
    assert_eq!(f(0x1000) * -5i16, -5);
    assert_eq!(f(-0x1800) * 4i16, -6);
    assert_eq!(f(0x2000) * f(0x1800), 3);
    assert_eq!(f(-0x2000) * f(0x1800), -3);
    assert_eq!(f(0x3000) / f(0x1000), 3);
    assert_eq!(f(-0x3000) / f(0x1000), -3);
    assert_eq!(f(0x1000) / f(0x3000), 0);
    assert_eq!(6i16 / f(0x1800), 0);
    assert_eq!(0x7000i16 / f(0x800), 14);
}

#[test]
fn table_cosine_and_sine() {
    let t = table();
    assert_eq!(cos(f(0), &t), f(0x1000));
    assert_eq!(cos(f(0x123), &t), f(0x123));
    assert_eq!(cos(f(-1), &t), f(-1));
    assert_eq!(sin(f(0x4000), &t), f(0x1000));
    assert_eq!(sin(f(0x1000), &t), f(0x3000));
}

#[test]
fn vector_arithmetic() {
    assert_eq!(Vi(1, 2, 3) + Vi(10, 20, 30), Vi(11, 22, 33));
    assert_eq!(Vi(1, 2, 3) - Vi(10, 20, 30), Vi(-9, -18, -27));
    assert_eq!(Vi(1, -2, 3) * 3, Vi(3, -6, 9));
    assert_eq!(3 * Vi(1, -2, 3), Vi(3, -6, 9));
    assert_eq!(Vi(7, -7, 6) / 2, Vi(3, -3, 3));
    assert_eq!(Vf(f(1), f(2), f(3)) + Vf(f(1), f(1), f(1)), Vf(f(2), f(3), f(4)));
    assert_eq!(Vf(f(1), f(2), f(3)) - Vf(f(1), f(1), f(1)), Vf(f(0), f(1), f(2)));
}

#[test]
fn apply_matrix_multiplies_rows() {
    let one = f(0x1000);
    let zero = f(0);
    let id = [one, zero, zero, zero, one, zero, zero, zero, one];
    assert_eq!(Vi(2, 3, 4).apply_matrix(id), Vi(2, 3, 4));
    let half = [f(0x800), zero, zero, zero, f(0x800), zero, zero, zero, f(0x800)];
    assert_eq!(Vi(3, 4, -4).apply_matrix(half), Vi(1, 2, -2));
    let mixed = [one, one, zero, zero, zero, zero, zero, zero, zero];
    assert_eq!(Vi(2, 3, 4).apply_matrix(mixed), Vi(5, 0, 0));
    assert_eq!(Vf(f(4), f(8), f(0)).apply_matrix(id), Vf(f(4), f(8), f(0)));
}

#[test]
fn rotation_by_zero_is_identity() {
    let t = table();
    let c = Vi(1, 1, 1);
    assert_eq!(Vi(1, 2, 3).rotate_x(f(0), c, &t), Vi(1, 2, 3));
    assert_eq!(Vi(1, 2, 3).rotate_y(f(0), c, &t), Vi(1, 2, 3));
    assert_eq!(Vi(1, 2, 3).rotate_z(f(0), c, &t), Vi(1, 2, 3));
    let v = Vf(f(1), f(2), f(3));
    assert_eq!(v.rotate_z(f(0), Vf(f(0), f(0), f(0)), &t), v);
}

#[test]
fn quarter_turn_rotates_about_x() {
    let mut t = vec![0i16; 0x10000];
    t[0] = 0x1000;
    let r = Vi(1, 2, 3).rotate_x(f(0x4000), Vi(0, 0, 0), &t);
    assert_eq!(r, Vi(1, -3, 2));
}

#[test]
fn widest_and_narrowest_fractions() {
    assert_eq!(F16::<0>::one().0, 1);
    assert_eq!(F16::<0>::frac_mask_bits(), 0);
    assert_eq!(F16::<0>(7).trunc().0, 7);
    assert_eq!(F16::<0>(-7).fract().0, 0);
    assert_eq!(F16::<0>(-5).lossy_to_int(), -5);
    assert_eq!(F16::<0>(i16::MIN).lossy_to_int(), i16::MIN);
    assert_eq!(F16::<0>::lossy_from_int(-300).0, -300);
    assert_eq!(F16::<15>::one().0, i16::MIN);
    assert_eq!(F16::<15>::int_mask(), 0);
    assert_eq!(F16::<15>(0x4000).trunc().0, 0);
    assert_eq!(F16::<15>(-0x4000).fract().0, -0x4000);
    assert_eq!(F16::<15>::lossy_from_int(3).0, 0);
    assert_eq!(F16::<15>(i16::MIN).lossy_to_int(), -1);
    assert_eq!(F16::<15>(5).signum().0, i16::MIN);
    assert_eq!(F16::<1>::int_mask(), 0x7FFE);
}

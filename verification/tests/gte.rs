use psx::gte::fixed::{Fixed, FixedPoint};
use psx::gte::trig::{fcos, fsin};
use psx::gte::V3;

fn x(bits: i16) -> Fixed {
    Fixed::from_bits(bits)
}

#[test]
fn bits_round_trip() {
    assert_eq!(x(-2).upscale(), -2);
    assert_eq!(x(-2).to_bits(), 0xFFFE);
    assert!(x(-2).is_negative());
    assert!(!x(0).is_negative());
}

#[test]
fn trunc_floors_and_fract_is_the_remainder() {
    assert_eq!(x(0x1800).trunc(), 1);
    assert_eq!(x(0x1800).fract(), 0x800);
    assert_eq!(x(-0x1800).trunc(), -2);
    assert_eq!(x(-0x1800).fract(), 0x800);
    let v = x(-0x1234);
    assert_eq!(v.trunc() as i32 * 4096 + v.fract() as i32, -0x1234);
    assert_eq!(FixedPoint::<4>::from_bits(0x35).trunc(), 3);
    assert_eq!(FixedPoint::<4>::from_bits(0x35).fract(), 5);
}

#[test]
fn arithmetic() {
    assert_eq!((x(0x1000) + x(0x800)).upscale(), 0x1800);
    assert_eq!((x(0x1000) - x(0x1800)).upscale(), -0x800);
    assert_eq!((x(0x1800) * x(0x2000)).upscale(), 0x3000);
    assert_eq!((x(-0x1800) * x(0x1000)).upscale(), -0x1800);
    assert_eq!((x(-1) * x(1)).upscale(), -1);
    assert_eq!((x(0x3000) / x(0x2000)).upscale(), 0x1800);
    assert_eq!((x(-0x1000) / x(0x3000)).upscale(), -0x555);
    assert_eq!((-x(0x1234)).upscale(), -0x1234);
}

#[test]
fn fsin_values() {
    assert_eq!(fsin(x(0)).upscale(), 0);
    assert_eq!(fsin(x(0x800)).upscale(), 2896);
    assert_eq!(fsin(x(0x1000)).upscale(), 4095);
    assert_eq!(fsin(x(0x1800)).upscale(), 2896);
    assert_eq!(fsin(x(0x2000)).upscale(), 0);
    assert_eq!(fsin(x(0x3000)).upscale(), -4095);
    assert_eq!(fsin(x(0x4000)).upscale(), 0);
}

#[test]
fn fsin_is_periodic_and_odd() {
    assert_eq!(fsin(x(-0x1000)).upscale(), -4095);
    assert_eq!(fsin(x(0x5000)).upscale(), 4095);
    assert_eq!(fsin(x(0x7FFF)).upscale(), -1);
    assert_eq!(fsin(x(i16::MIN)).upscale(), 0);
    for b in [0x123i16, 0x800, 0x1555, 0x2abc, 0x3999] {
        assert_eq!(fsin(x(b - 0x4000)).upscale(), fsin(x(b)).upscale());
        assert_eq!(fsin(x(-b)).upscale(), -fsin(x(b)).upscale());
    }
}

#[test]
fn fcos_is_a_shifted_sine() {
    assert_eq!(fcos(x(0)).upscale(), 4095);
    assert_eq!(fcos(x(0x1000)).upscale(), 0);
    assert_eq!(fcos(x(0x2000)).upscale(), -4095);
    assert_eq!(fcos(x(-0x1000)).upscale(), 0);
}

#[test]
fn vector_words() {
    let v = V3::new([1, -1, 7]);
    assert_eq!(v.words(), (0xFFFF_0001, 7));
}

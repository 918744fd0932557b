use psx::gpu::color::Color as Rgb;
use psx::gpu::colors::{
    aqua, black, blue, cyan, green, indigo, lime, mint, orange, pink, red, violet, white, yellow,
};
use psx::gpu::{Color, TexColor};

#[test]
fn named_colors_have_their_components() {
    assert_eq!(black(), Color { red: 0, green: 0, blue: 0 });
    assert_eq!(white(), Color { red: 0xFF, green: 0xFF, blue: 0xFF });
    assert_eq!(red(), Color { red: 0xFF, green: 0, blue: 0 });
    assert_eq!(green(), Color { red: 0, green: 0xFF, blue: 0 });
    assert_eq!(blue(), Color { red: 0, green: 0, blue: 0xFF });
    assert_eq!(yellow(), Color { red: 0xFF, green: 0xFF, blue: 0 });
    assert_eq!(cyan(), Color { red: 0, green: 0xFF, blue: 0xFF });
    assert_eq!(violet(), Color { red: 0xFF, green: 0, blue: 0xFF });
    assert_eq!(pink(), Color { red: 0xFE, green: 0, blue: 0x7F });
    assert_eq!(orange(), Color { red: 0xFE, green: 0x7F, blue: 0 });
    assert_eq!(lime(), Color { red: 0x7F, green: 0xFE, blue: 0 });
    assert_eq!(mint(), Color { red: 0, green: 0xFE, blue: 0x7F });
    assert_eq!(aqua(), Color { red: 0, green: 0x7F, blue: 0xFE });
    assert_eq!(indigo(), Color { red: 0x7F, green: 0, blue: 0xFE });
}

#[test]
fn color_sum_saturates_at_white() {
    let a = Color::new(200, 100, 50);
    let b = Color::new(100, 100, 100);
    assert_eq!(a.sum(b), Color::new(255, 200, 150));
    assert_eq!(a.sum(b), b.sum(a));
}

#[test]
fn color_halve_rounds_down() {
    assert_eq!(Color::new(201, 100, 1).halve(), Color::new(100, 50, 0));
}

#[test]
fn color_double_saturates_at_white() {
    assert_eq!(Color::new(200, 100, 50).double(), Color::new(255, 200, 100));
}

#[test]
fn color_average_is_the_sum_of_halves() {
    let a = Color::new(200, 100, 50);
    let b = Color::new(100, 100, 101);
    assert_eq!(a.average(b), Color::new(150, 100, 75));
    assert_eq!(Color::new(255, 1, 3).average(Color::new(255, 1, 3)), Color::new(254, 0, 2));
}

#[test]
fn color_divides_each_component() {
    assert_eq!(Color::new(200, 100, 50) / 3, Color::new(66, 33, 16));
    assert_eq!(TexColor::new(90, 9, 0) / 2, TexColor::new(45, 4, 0));
}

#[test]
fn tex_color_sum_saturates() {
    let a = TexColor::new(100, 20, 0);
    let b = TexColor::new(200, 20, 0);
    assert_eq!(a.sum(b), TexColor::new(255, 40, 0));
}

#[test]
fn color_words_put_red_lowest() {
    assert_eq!(u32::from(Color::new(1, 2, 3)), 0x0003_0201);
    assert_eq!(u32::from(TexColor::new(0x10, 0x20, 0x30)), 0x0030_2010);
}

#[test]
fn tex_color_round_trip_loses_low_bits() {
    let c = Color::new(200, 101, 51);
    let t = TexColor::from(c);
    assert_eq!(t, TexColor::new(100, 50, 25));
    assert_eq!(Color::from(t), Color::new(200, 100, 50));
}

#[test]
fn tex_color_doubling_wraps_past_a_byte() {
    assert_eq!(Color::from(TexColor::new(100, 128, 200)), Color::new(200, 0, 144));
}

#[test]
fn rgb_colors_combine() {
    assert_eq!(Rgb::rgb(1, 2, 3).red, 1);
    assert_eq!(Rgb::yellow().green, 0xFF);
    assert_eq!(Rgb::cyan().red, 0);
    assert_eq!(Rgb::violet().blue, 0xFF);
    let s = Rgb::rgb(10, 20, 30).sum(&Rgb::rgb(1, 2, 3));
    assert_eq!((s.red, s.green, s.blue), (11, 22, 33));
    let h = Rgb::rgb(11, 21, 31).halve();
    assert_eq!((h.red, h.green, h.blue), (5, 10, 15));
    let a = Rgb::rgb(11, 21, 31).average(&Rgb::rgb(1, 1, 1));
    assert_eq!((a.red, a.green, a.blue), (5, 10, 15));
    let f = Rgb::from((7, 8, 9));
    assert_eq!((f.red, f.green, f.blue), (7, 8, 9));
    assert_eq!(u32::from(Rgb::rgb(1, 2, 3)), 0x0003_0201);
}

#[test]
fn add_assign_saturates() {
    let mut c = Color::new(250, 10, 0);
    c += Color::new(10, 10, 0);
    assert_eq!(c, Color::new(255, 20, 0));
    let mut t = TexColor::new(1, 2, 3);
    t += TexColor::new(255, 0, 1);
    assert_eq!(t, TexColor::new(255, 2, 4));
}

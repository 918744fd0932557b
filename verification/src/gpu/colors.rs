#![allow(missing_docs)]
use vstd::prelude::*;
use crate::gpu::{Color, TexColor};
use vstd::std_specs::convert::FromSpecImpl;
use vstd::std_specs::ops::DivSpecImpl;

verus! {

// This is the max value for untextured graphics. Colors for textured graphics
// should be scaled down to a max of 0x80.
const MAX: u8 = 0xFF;

/// Black: all components zero.
pub fn black() -> (c: Color)
    ensures
        c == (Color { red: 0, green: 0, blue: 0 }),
{
    Color::new(0, 0, 0)
}

/// White: all components at the maximum.
pub fn white() -> (c: Color)
    ensures
        c == (Color { red: 0xFF, green: 0xFF, blue: 0xFF }),
{
    Color::new(MAX, MAX, MAX)
}

/// Pure red.
pub fn red() -> (c: Color)
    ensures
        c == (Color { red: 0xFF, green: 0, blue: 0 }),
{
    Color::new(MAX, 0, 0)
}

/// Pure green.
pub fn green() -> (c: Color)
    ensures
        c == (Color { red: 0, green: 0xFF, blue: 0 }),
{
    Color::new(0, MAX, 0)
}

/// Pure blue.
pub fn blue() -> (c: Color)
    ensures
        c == (Color { red: 0, green: 0, blue: 0xFF }),
{
    Color::new(0, 0, MAX)
}

/// Red plus green.
pub fn yellow() -> (c: Color)
    ensures
        c == (Color { red: 0xFF, green: 0xFF, blue: 0 }),
{
    red().sum(green())
}

/// Green plus blue.
pub fn cyan() -> (c: Color)
    ensures
        c == (Color { red: 0, green: 0xFF, blue: 0xFF }),
{
    green().sum(blue())
}

/// Blue plus red.
pub fn violet() -> (c: Color)
    ensures
        c == (Color { red: 0xFF, green: 0, blue: 0xFF }),
{
    blue().sum(red())
}

/// The average of red and violet.
pub fn pink() -> (c: Color)
    ensures
        c == (Color { red: 0xFE, green: 0, blue: 0x7F }),
{
    red().average(violet())
}

/// The average of red and yellow.
pub fn orange() -> (c: Color)
    ensures
        c == (Color { red: 0xFE, green: 0x7F, blue: 0 }),
{
    red().average(yellow())
}

/// The average of green and yellow.
pub fn lime() -> (c: Color)
    ensures
        c == (Color { red: 0x7F, green: 0xFE, blue: 0 }),
{
    green().average(yellow())
}

/// The average of green and cyan.
pub fn mint() -> (c: Color)
    ensures
        c == (Color { red: 0, green: 0xFE, blue: 0x7F }),
{
    green().average(cyan())
}

/// The average of blue and cyan.
pub fn aqua() -> (c: Color)
    ensures
        c == (Color { red: 0, green: 0x7F, blue: 0xFE }),
{
    blue().average(cyan())
}

/// The average of blue and violet.
pub fn indigo() -> (c: Color)
    ensures
        c == (Color { red: 0x7F, green: 0, blue: 0xFE }),
{
    blue().average(violet())
}

/// `a + b`, saturating at `0xFF`.
pub open spec fn sat_add(a: u8, b: u8) -> u8 {
    if a + b > 0xFF {
        0xFF
    } else {
        (a + b) as u8
    }
}

/// Adding components saturates: the order does not matter, adding zero
/// changes nothing, a sum never falls below either part, it is exact while
/// it fits a byte and full (`0xFF`) past that.
pub proof fn lemma_saturating_sum(a: u8, b: u8)
    ensures
        sat_add(a, b) == sat_add(b, a),
        sat_add(a, 0) == a,
        sat_add(a, 0xFF) == 0xFF,
        a <= sat_add(a, b) && b <= sat_add(a, b),
        a + b <= 0xFF ==> sat_add(a, b) == a + b,
        a + b > 0xFF ==> sat_add(a, b) == 0xFF,
{
}

/// The GPU word for a color: red in the low byte, then green, then blue.
pub open spec fn color_word(red: u8, green: u8, blue: u8) -> u32 {
    (red + green * 0x100 + blue * 0x1_0000) as u32
}

/// The color word is the three components laid side by side.
pub proof fn lemma_color_word(r: u8, g: u8, b: u8)
    ensures
        (r as u32) | ((g as u32) << 8u32) | ((b as u32) << 16u32) == color_word(r, g, b),
        color_word(r, g, b) == r + g * 0x100 + b * 0x1_0000,
{
    assert((r as u32) | ((g as u32) << 8u32) | ((b as u32) << 16u32) == r + g * 0x100 + b
        * 0x1_0000) by (bit_vector);
}

impl From<Color> for u32 {
    fn from(color: Color) -> (w: u32) {
        proof {
            lemma_color_word(color.red, color.green, color.blue);
        }
        color.red as u32 | (color.green as u32) << 8u32 | (color.blue as u32) << 16u32
    }
}

impl FromSpecImpl<Color> for u32 {
    open spec fn obeys_from_spec() -> bool {
        true
    }

    open spec fn from_spec(color: Color) -> u32 {
        color_word(color.red, color.green, color.blue)
    }
}

impl core::ops::AddAssign<Color> for Color {
    fn add_assign(&mut self, other: Color)
        ensures
            *final(self) == (Color {
                red: sat_add(old(self).red, other.red),
                green: sat_add(old(self).green, other.green),
                blue: sat_add(old(self).blue, other.blue),
            }),
    {
        *self = self.sum(other);
    }
}

impl core::ops::AddAssign<TexColor> for TexColor {
    fn add_assign(&mut self, other: TexColor)
        ensures
            *final(self) == (TexColor {
                red: sat_add(old(self).red, other.red),
                green: sat_add(old(self).green, other.green),
                blue: sat_add(old(self).blue, other.blue),
            }),
    {
        *self = self.sum(other);
    }
}

impl core::ops::Div<u8> for Color {
    type Output = Self;

    fn div(self, other: u8) -> (r: Self) {
        Self::new(self.red / other, self.green / other, self.blue / other)
    }
}

impl DivSpecImpl<u8> for Color {
    open spec fn obeys_div_spec() -> bool {
        true
    }

    open spec fn div_req(self, other: u8) -> bool {
        other != 0
    }

    open spec fn div_spec(self, other: u8) -> Self {
        Color { red: self.red / other, green: self.green / other, blue: self.blue / other }
    }
}

impl core::ops::Div<u8> for TexColor {
    type Output = Self;

    fn div(self, other: u8) -> (r: Self) {
        Self::new(self.red / other, self.green / other, self.blue / other)
    }
}

impl DivSpecImpl<u8> for TexColor {
    open spec fn obeys_div_spec() -> bool {
        true
    }

    open spec fn div_req(self, other: u8) -> bool {
        other != 0
    }

    open spec fn div_spec(self, other: u8) -> Self {
        TexColor { red: self.red / other, green: self.green / other, blue: self.blue / other }
    }
}

impl Color {
    /// Creates a new `Color`.
    pub fn new(red: u8, green: u8, blue: u8) -> (c: Self)
        ensures
            c == (Color { red, green, blue }),
    {
        Color { red, green, blue }
    }

    /// Adds two `Color`s together, each component saturating at `0xFF`.
    pub fn sum(&self, other: Self) -> (c: Self)
        ensures
            c == (Color {
                red: sat_add(self.red, other.red),
                green: sat_add(self.green, other.green),
                blue: sat_add(self.blue, other.blue),
            }),
    {
        Color::new(
            self.red.saturating_add(other.red),
            self.green.saturating_add(other.green),
            self.blue.saturating_add(other.blue),
        )
    }

    /// Halves a `Color`'s intensity, saturating to black.
    pub fn halve(&self) -> (c: Self)
        ensures
            c == (Color { red: self.red / 2, green: self.green / 2, blue: self.blue / 2 }),
    {
        proof {
            let (r, g, b) = (self.red, self.green, self.blue);
            assert(r >> 1u8 == r / 2 && g >> 1u8 == g / 2 && b >> 1u8 == b / 2) by (bit_vector);
        }
        Color::new(self.red >> 1u8, self.green >> 1u8, self.blue >> 1u8)
    }

    /// Doubles a `Color`'s intensity, saturating to white.
    pub fn double(&self) -> (c: Self)
        ensures
            c == (Color {
                red: sat_add(self.red, self.red),
                green: sat_add(self.green, self.green),
                blue: sat_add(self.blue, self.blue),
            }),
    {
        Color::new(
            self.red.saturating_add(self.red),
            self.green.saturating_add(self.green),
            self.blue.saturating_add(self.blue),
        )
    }

    /// Averages two `Color`s: the sum of their halves.
    pub fn average(&self, other: Self) -> (c: Self)
        ensures
            c == (Color {
                red: (self.red / 2 + other.red / 2) as u8,
                green: (self.green / 2 + other.green / 2) as u8,
                blue: (self.blue / 2 + other.blue / 2) as u8,
            }),
    {
        self.halve().sum(other.halve())
    }
}

impl TexColor {
    /// Creates a new `TexColor`.
    pub fn new(red: u8, green: u8, blue: u8) -> (c: Self)
        ensures
            c == (TexColor { red, green, blue }),
    {
        Self { red, green, blue }
    }

    /// Adds two `TexColor`s together, each component saturating at `0xFF`.
    pub fn sum(&self, other: Self) -> (c: Self)
        ensures
            c == (TexColor {
                red: sat_add(self.red, other.red),
                green: sat_add(self.green, other.green),
                blue: sat_add(self.blue, other.blue),
            }),
    {
        Self::new(
            self.red.saturating_add(other.red),
            self.green.saturating_add(other.green),
            self.blue.saturating_add(other.blue),
        )
    }
}

impl From<TexColor> for u32 {
    fn from(color: TexColor) -> (w: u32) {
        proof {
            lemma_color_word(color.red, color.green, color.blue);
        }
        color.red as u32 | (color.green as u32) << 8u32 | (color.blue as u32) << 16u32
    }
}

impl FromSpecImpl<TexColor> for u32 {
    open spec fn obeys_from_spec() -> bool {
        true
    }

    open spec fn from_spec(color: TexColor) -> u32 {
        color_word(color.red, color.green, color.blue)
    }
}

impl From<Color> for TexColor {
    fn from(color: Color) -> (t: TexColor) {
        TexColor { red: color.red / 2, green: color.green / 2, blue: color.blue / 2 }
    }
}

impl FromSpecImpl<Color> for TexColor {
    open spec fn obeys_from_spec() -> bool {
        true
    }

    open spec fn from_spec(color: Color) -> TexColor {
        TexColor { red: color.red / 2, green: color.green / 2, blue: color.blue / 2 }
    }
}

/// `2 * c`, wrapping past `0xFF` as the hardware's byte arithmetic does.
pub open spec fn double_wrapping(c: u8) -> u8 {
    ((2 * c) % 0x100) as u8
}

impl From<TexColor> for Color {
    fn from(color: TexColor) -> (c: Color) {
        Color {
            red: color.red.wrapping_mul(2),
            green: color.green.wrapping_mul(2),
            blue: color.blue.wrapping_mul(2),
        }
    }
}

impl FromSpecImpl<TexColor> for Color {
    open spec fn obeys_from_spec() -> bool {
        true
    }

    open spec fn from_spec(color: TexColor) -> Color {
        Color {
            red: double_wrapping(color.red),
            green: double_wrapping(color.green),
            blue: double_wrapping(color.blue),
        }
    }
}

} // verus!

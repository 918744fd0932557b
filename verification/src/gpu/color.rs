use vstd::prelude::*;
use vstd::std_specs::convert::FromSpecImpl;
use crate::gpu::colors::color_word;

verus! {

/// A color component.
pub type Component = u8;

/// A triple of unsigned 8-bit color components.
#[derive(Clone, Copy, PartialEq, Eq, Structural)]
pub struct Color {
    /// The red component.
    pub red: Component,
    /// The green component.
    pub green: Component,
    /// The blue component.
    pub blue: Component,
}

/// A color for each vertex of a primitive.
pub type Palette<const N: usize> = [Color; N];

impl From<(Component, Component, Component)> for Color {
    fn from(rgb: (Component, Component, Component)) -> (c: Self) {
        Color::rgb(rgb.0, rgb.1, rgb.2)
    }
}

impl FromSpecImpl<(Component, Component, Component)> for Color {
    open spec fn obeys_from_spec() -> bool {
        true
    }

    open spec fn from_spec(rgb: (Component, Component, Component)) -> Color {
        Color { red: rgb.0, green: rgb.1, blue: rgb.2 }
    }
}

impl From<Color> for u32 {
    fn from(color: Color) -> (w: u32) {
        proof {
            let (r, g, b) = (color.red, color.green, color.blue);
            assert((r as u32) | ((g as u32) << 8u32) | ((b as u32) << 16u32) == r + g * 0x100 + b
                * 0x1_0000) by (bit_vector);
        }
        color.red as u32 | (color.green as u32) << 8u32 | (color.blue as u32) << 16u32
    }
}

impl FromSpecImpl<Color> for u32 {
    open spec fn obeys_from_spec() -> bool {
        true
    }

    open spec fn from_spec(color: Color) -> u32 {
        color_word(color.red, color.green, color.blue)
    }
}

/// The components of `a + b` fit a byte each.
pub open spec fn sum_fits(a: Color, b: Color) -> bool {
    a.red + b.red <= 0xFF && a.green + b.green <= 0xFF && a.blue + b.blue <= 0xFF
}

impl Color {
    /// Constructs a new color.
    pub fn rgb(red: Component, green: Component, blue: Component) -> (c: Self)
        ensures
            c == (Color { red, green, blue }),
    {
        Color { red, green, blue }
    }

    /// Black.
    pub fn black() -> (c: Self)
        ensures
            c == (Color { red: 0, green: 0, blue: 0 }),
    {
        Color::rgb(0, 0, 0)
    }

    /// White.
    pub fn white() -> (c: Self)
        ensures
            c == (Color { red: 0xFF, green: 0xFF, blue: 0xFF }),
    {
        Color::rgb(0xFF, 0xFF, 0xFF)
    }

    /// Red.
    pub fn red() -> (c: Self)
        ensures
            c == (Color { red: 0xFF, green: 0, blue: 0 }),
    {
        Color::rgb(0xFF, 0, 0)
    }

    /// Green.
    pub fn green() -> (c: Self)
        ensures
            c == (Color { red: 0, green: 0xFF, blue: 0 }),
    {
        Color::rgb(0, 0xFF, 0)
    }

    /// Blue.
    pub fn blue() -> (c: Self)
        ensures
            c == (Color { red: 0, green: 0, blue: 0xFF }),
    {
        Color::rgb(0, 0, 0xFF)
    }

    /// Red plus green.
    pub fn yellow() -> (c: Self)
        ensures
            c == (Color { red: 0xFF, green: 0xFF, blue: 0 }),
    {
        Color::red().sum(&Color::green())
    }

    /// Green plus blue.
    pub fn cyan() -> (c: Self)
        ensures
            c == (Color { red: 0, green: 0xFF, blue: 0xFF }),
    {
        Color::green().sum(&Color::blue())
    }

    /// Blue plus red.
    pub fn violet() -> (c: Self)
        ensures
            c == (Color { red: 0xFF, green: 0, blue: 0xFF }),
    {
        Color::blue().sum(&Color::red())
    }

    /// Adds two colors component-wise.
    pub fn sum(&self, other: &Self) -> (c: Self)
        requires
            sum_fits(*self, *other),
        ensures
            c == (Color {
                red: (self.red + other.red) as u8,
                green: (self.green + other.green) as u8,
                blue: (self.blue + other.blue) as u8,
            }),
    {
        Color::rgb(self.red + other.red, self.green + other.green, self.blue + other.blue)
    }

    /// Halves each component of a color.
    pub fn halve(&self) -> (c: Self)
        ensures
            c == (Color { red: self.red / 2, green: self.green / 2, blue: self.blue / 2 }),
    {
        proof {
            let (r, g, b) = (self.red, self.green, self.blue);
            assert(r >> 1u8 == r / 2 && g >> 1u8 == g / 2 && b >> 1u8 == b / 2) by (bit_vector);
        }
        Color::rgb(self.red >> 1u8, self.green >> 1u8, self.blue >> 1u8)
    }

    /// Averages two colors: the sum of their halves.
    pub fn average(&self, other: &Self) -> (c: Self)
        ensures
            c == (Color {
                red: (self.red / 2 + other.red / 2) as u8,
                green: (self.green / 2 + other.green / 2) as u8,
                blue: (self.blue / 2 + other.blue / 2) as u8,
            }),
    {
        self.halve().sum(&other.halve())
    }
}

} // verus!

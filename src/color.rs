use vstd::prelude::*;

verus! {

/// A color with red, green, blue and alpha channels
#[derive(Clone, Copy, Debug, PartialEq, Eq, Structural)]
pub struct Color {
    /// Red
    pub r: u8,
    /// Green
    pub g: u8,
    /// Blue
    pub b: u8,
    /// Alpha
    pub a: u8,
}

/// Pre-defined colors
#[derive(Clone, Copy, Debug, PartialEq, Eq, Structural)]
pub enum ColorPreset {
    Red,
    Green,
    Blue,
    Black,
    White,
    Grey,
    Default,
    Transparent,
}

/// An opaque color.
pub open spec fn opaque(r: u8, g: u8, b: u8) -> Color {
    Color { r, g, b, a: 255 }
}

/// The color a preset stands for.
pub open spec fn preset_color(p: ColorPreset) -> Color {
    match p {
        ColorPreset::Red => opaque(255, 0, 0),
        ColorPreset::Green => opaque(0, 255, 0),
        ColorPreset::Blue => opaque(0, 0, 255),
        ColorPreset::Black => opaque(0, 0, 0),
        ColorPreset::White => opaque(255, 255, 255),
        ColorPreset::Grey => opaque(127, 127, 127),
        ColorPreset::Default => opaque(0, 0, 0),
        ColorPreset::Transparent => Color { r: 0, g: 0, b: 0, a: 0 },
    }
}

impl From<ColorPreset> for Color {
    fn from(p: ColorPreset) -> (r: Color) {
        match p {
            ColorPreset::Red => Color::from((255, 0, 0)),
            ColorPreset::Green => Color::from((0, 255, 0)),
            ColorPreset::Blue => Color::from((0, 0, 255)),
            ColorPreset::Black => Color::from((0, 0, 0)),
            ColorPreset::White => Color::from((255, 255, 255)),
            ColorPreset::Grey => Color::from((127, 127, 127)),
            ColorPreset::Default => Color::from((0, 0, 0)),
            ColorPreset::Transparent => Color::from((0, 0, 0, 0)),
        }
    }
}

impl vstd::std_specs::convert::FromSpecImpl<ColorPreset> for Color {
    open spec fn obeys_from_spec() -> bool {
        true
    }

    open spec fn from_spec(p: ColorPreset) -> Color {
        preset_color(p)
    }
}

impl From<(u8, u8, u8, u8)> for Color {
    fn from(t: (u8, u8, u8, u8)) -> (r: Self) {
        Self { r: t.0, g: t.1, b: t.2, a: t.3 }
    }
}

impl vstd::std_specs::convert::FromSpecImpl<(u8, u8, u8, u8)> for Color {
    open spec fn obeys_from_spec() -> bool {
        true
    }

    open spec fn from_spec(t: (u8, u8, u8, u8)) -> Color {
        Color { r: t.0, g: t.1, b: t.2, a: t.3 }
    }
}

impl From<(u8, u8, u8)> for Color {
    fn from(t: (u8, u8, u8)) -> (r: Self) {
        Self { r: t.0, g: t.1, b: t.2, a: 255 }
    }
}

impl vstd::std_specs::convert::FromSpecImpl<(u8, u8, u8)> for Color {
    open spec fn obeys_from_spec() -> bool {
        true
    }

    open spec fn from_spec(t: (u8, u8, u8)) -> Color {
        opaque(t.0, t.1, t.2)
    }
}

impl Default for Color {
    fn default() -> (r: Self)
        ensures
            r == preset_color(ColorPreset::Default),
    {
        Color::from(ColorPreset::Default)
    }
}

} // verus!

//! The palette that the screen is drawn with, as plain RGB triples.
use vstd::prelude::*;

verus! {

/// A 24-bit colour.
#[derive(Clone, Copy, Debug, PartialEq, Eq, Structural)]
pub struct Rgb {
    pub r: u8,
    pub g: u8,
    pub b: u8,
}

/// The named colours of the user interface.
#[derive(Clone, Copy, Debug)]
pub struct ColorScheme {
    pub dark_black: Rgb,
    pub black: Rgb,
    pub grey: Rgb,
    pub white: Rgb,
    pub light_grey: Rgb,
    pub red: Rgb,
    pub green: Rgb,
    pub yellow: Rgb,
    pub blue: Rgb,
    pub magenta: Rgb,
    pub cyan: Rgb,
}

impl ColorScheme {
    /// The default palette.
    pub fn new() -> (c: ColorScheme)
        ensures
            c.dark_black == (Rgb { r: 49, g: 51, b: 70 }),
            c.black == (Rgb { r: 69, g: 71, b: 90 }),
            c.grey == (Rgb { r: 88, g: 91, b: 112 }),
            c.white == (Rgb { r: 186, g: 194, b: 222 }),
            c.light_grey == (Rgb { r: 166, g: 173, b: 200 }),
            c.red == (Rgb { r: 243, g: 139, b: 168 }),
            c.green == (Rgb { r: 166, g: 227, b: 161 }),
            c.yellow == (Rgb { r: 249, g: 226, b: 175 }),
            c.blue == (Rgb { r: 137, g: 180, b: 250 }),
            c.magenta == (Rgb { r: 245, g: 194, b: 231 }),
            c.cyan == (Rgb { r: 148, g: 226, b: 213 }),
    {
        ColorScheme {
            dark_black: Rgb { r: 49, g: 51, b: 70 },
            black: Rgb { r: 69, g: 71, b: 90 },
            grey: Rgb { r: 88, g: 91, b: 112 },
            white: Rgb { r: 186, g: 194, b: 222 },
            light_grey: Rgb { r: 166, g: 173, b: 200 },
            red: Rgb { r: 243, g: 139, b: 168 },
            green: Rgb { r: 166, g: 227, b: 161 },
            yellow: Rgb { r: 249, g: 226, b: 175 },
            blue: Rgb { r: 137, g: 180, b: 250 },
            magenta: Rgb { r: 245, g: 194, b: 231 },
            cyan: Rgb { r: 148, g: 226, b: 213 },
        }
    }
}

} // verus!

use vstd::prelude::*;

verus! {

/// An opaque RGBA color, one byte per channel.
#[derive(Clone, Copy, Debug, PartialEq, Eq, Structural)]
pub struct Color {
    pub r: u8,
    pub g: u8,
    pub b: u8,
    pub a: u8,
}

impl Color {
    pub open spec fn spec_white() -> Color {
        Color { r: 255, g: 255, b: 255, a: 255 }
    }

    #[verifier::when_used_as_spec(spec_white)]
    pub fn white() -> (c: Color)
        ensures
            c == Self::spec_white(),
    {
        Color { r: 255, g: 255, b: 255, a: 255 }
    }

    pub open spec fn spec_black() -> Color {
        Color { r: 0, g: 0, b: 0, a: 255 }
    }

    #[verifier::when_used_as_spec(spec_black)]
    pub fn black() -> (c: Color)
        ensures
            c == Self::spec_black(),
    {
        Color { r: 0, g: 0, b: 0, a: 255 }
    }

    pub open spec fn spec_darkgray() -> Color {
        Color { r: 169, g: 169, b: 169, a: 255 }
    }

    #[verifier::when_used_as_spec(spec_darkgray)]
    pub fn darkgray() -> (c: Color)
        ensures
            c == Self::spec_darkgray(),
    {
        Color { r: 169, g: 169, b: 169, a: 255 }
    }

    pub open spec fn spec_purple() -> Color {
        Color { r: 128, g: 0, b: 128, a: 255 }
    }

    #[verifier::when_used_as_spec(spec_purple)]
    pub fn purple() -> (c: Color)
        ensures
            c == Self::spec_purple(),
    {
        Color { r: 128, g: 0, b: 128, a: 255 }
    }

    pub open spec fn spec_gold() -> Color {
        Color { r: 255, g: 215, b: 0, a: 255 }
    }

    #[verifier::when_used_as_spec(spec_gold)]
    pub fn gold() -> (c: Color)
        ensures
            c == Self::spec_gold(),
    {
        Color { r: 255, g: 215, b: 0, a: 255 }
    }

    pub open spec fn spec_lime() -> Color {
        Color { r: 0, g: 255, b: 0, a: 255 }
    }

    #[verifier::when_used_as_spec(spec_lime)]
    pub fn lime() -> (c: Color)
        ensures
            c == Self::spec_lime(),
    {
        Color { r: 0, g: 255, b: 0, a: 255 }
    }

    pub open spec fn spec_red() -> Color {
        Color { r: 255, g: 0, b: 0, a: 255 }
    }

    #[verifier::when_used_as_spec(spec_red)]
    pub fn red() -> (c: Color)
        ensures
            c == Self::spec_red(),
    {
        Color { r: 255, g: 0, b: 0, a: 255 }
    }

    pub open spec fn spec_skyblue() -> Color {
        Color { r: 135, g: 206, b: 235, a: 255 }
    }

    #[verifier::when_used_as_spec(spec_skyblue)]
    pub fn skyblue() -> (c: Color)
        ensures
            c == Self::spec_skyblue(),
    {
        Color { r: 135, g: 206, b: 235, a: 255 }
    }

    pub open spec fn spec_orange() -> Color {
        Color { r: 255, g: 165, b: 0, a: 255 }
    }

    #[verifier::when_used_as_spec(spec_orange)]
    pub fn orange() -> (c: Color)
        ensures
            c == Self::spec_orange(),
    {
        Color { r: 255, g: 165, b: 0, a: 255 }
    }

    pub fn new(r: u8, g: u8, b: u8, a: u8) -> (c: Color)
        ensures
            c == (Color { r, g, b, a }),
    {
        Color { r, g, b, a }
    }
}

} // verus!

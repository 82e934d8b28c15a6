//! Colours.

use vstd::prelude::*;

verus! {

/// An opaque colour by its red, green and blue parts.
#[derive(Clone, Copy, Debug, PartialEq, Eq, Structural)]
pub struct Rgb {
    pub r: u8,
    pub g: u8,
    pub b: u8,
}

impl Rgb {
    /// The colour of the grid lines and of the second player's pieces.
    pub open spec fn spec_black() -> Rgb {
        Rgb { r: 0, g: 0, b: 0 }
    }

    /// The colour of the first player's pieces.
    pub open spec fn spec_red() -> Rgb {
        Rgb { r: 255, g: 0, b: 0 }
    }

    /// The colour of the grid lines and of the second player's pieces.
    #[verifier::when_used_as_spec(spec_black)]
    pub fn black() -> (color: Rgb)
        ensures
            color == Rgb::spec_black(),
    {
        Rgb { r: 0, g: 0, b: 0 }
    }

    /// The colour of the first player's pieces.
    #[verifier::when_used_as_spec(spec_red)]
    pub fn red() -> (color: Rgb)
        ensures
            color == Rgb::spec_red(),
    {
        Rgb { r: 255, g: 0, b: 0 }
    }
}

} // verus!

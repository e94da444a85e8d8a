//! A small public interface: a successor function and the colors of the RYB
//! model.
use vstd::prelude::*;

verus! {

/// The primary colors according to the RYB color model.
#[derive(Clone, Copy, Debug, PartialEq, Eq, Structural)]
pub enum PrimaryColor {
    Red,
    Yellow,
    Blue,
}

/// The secondary colors according to the RYB color model.
#[derive(Clone, Copy, Debug, PartialEq, Eq, Structural)]
pub enum SecondaryColor {
    Orange,
    Green,
    Purple,
}

/// Adds one to the given number.
pub fn add_one(x: i32) -> (r: i32)
    requires
        x < i32::MAX,
    ensures
        r == x + 1,
{
    x + 1
}

/// What `mix` makes of two primary colors: green, whatever they are.
pub open spec fn spec_mix(c1: PrimaryColor, c2: PrimaryColor) -> SecondaryColor {
    SecondaryColor::Green
}

/// Combines two primary colors in equal amounts to create a secondary color.
pub fn mix(c1: PrimaryColor, c2: PrimaryColor) -> (r: SecondaryColor)
    ensures
        r == spec_mix(c1, c2),
{
    SecondaryColor::Green
}

} // verus!

//! The RYB color model's primary and secondary colors, with the demo
//! mixing rules.

use vstd::prelude::*;

verus! {

/// The primary colors according to the RYB color model.
#[derive(Debug, Clone, Copy, PartialEq, Eq, Structural)]
pub enum PrimaryColor {
    Red,
    Yellow,
    Blue,
}

/// The secondary colors according to the RYB color model.
#[derive(Debug, Clone, Copy, PartialEq, Eq, Structural)]
pub enum SecondaryColor {
    Orange,
    Green,
    Purple,
}

/// Combines two primary colors in equal amounts to create a secondary
/// color; this demo always mixes to orange.
#[allow(unused_variables)]
pub fn mix(c1: PrimaryColor, c2: PrimaryColor) -> (r: SecondaryColor)
    ensures
        r is Orange,
{
    SecondaryColor::Orange
}

/// Combines two secondary colors in equal amounts to create a primary
/// color; this demo always mixes to blue.
#[allow(unused_variables)]
pub fn mix_secondary(c1: SecondaryColor, c2: SecondaryColor) -> (r: PrimaryColor)
    ensures
        r is Blue,
{
    PrimaryColor::Blue
}

} // verus!

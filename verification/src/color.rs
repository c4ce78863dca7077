//! Colours with eight bits per channel, and the scene's fixed palette.

use crate::geometry::UNIT;
use vstd::prelude::*;

verus! {

/// An opaque colour, eight bits per channel.
#[derive(Clone, Copy, Debug, PartialEq, Eq, Structural)]
pub struct Color {
    pub r: u8,
    pub g: u8,
    pub b: u8,
}

/// The channel value nearest to `fraction` of full intensity, where `UNIT`
/// stands for full intensity. Fractions outside `0..=UNIT` are clamped first,
/// and a value half-way between two channel values goes to the upper one.
pub open spec fn channel_of(fraction: int) -> int {
    let clamped = if fraction < 0 {
        0
    } else if fraction > UNIT {
        UNIT as int
    } else {
        fraction
    };
    (clamped * 255 + UNIT / 2) / (UNIT as int)
}

/// The colour whose channels are the given fractions of full intensity.
pub open spec fn color_of(red: int, green: int, blue: int) -> Color {
    Color { r: channel_of(red) as u8, g: channel_of(green) as u8, b: channel_of(blue) as u8 }
}

/// A channel value is at most 255, and grows with the fraction.
pub proof fn lemma_channel_range(fraction: int)
    ensures
        0 <= channel_of(fraction) <= 255,
        fraction <= 0 ==> channel_of(fraction) == 0,
        fraction >= UNIT ==> channel_of(fraction) == 255,
{
}

/// The background of the whole viewport.
pub open spec fn sky_blue() -> Color {
    Color { r: 135, g: 206, b: 235 }
}

/// The colour of every snowflake.
pub open spec fn white() -> Color {
    Color { r: 255, g: 255, b: 255 }
}

/// The colour of the trunk.
pub open spec fn trunk_brown() -> Color {
    Color { r: 139, g: 69, b: 19 }
}

/// The colour of the tree's silhouette.
pub open spec fn tree_green() -> Color {
    Color { r: 0, g: 100, b: 0 }
}

/// The channel value nearest to `fraction` of full intensity.
pub fn channel_from_fraction(fraction: i64) -> (channel: u8)
    ensures
        channel == channel_of(fraction as int),
{
    let clamped: i64 = if fraction < 0 {
        0
    } else if fraction > UNIT {
        UNIT
    } else {
        fraction
    };
    let scaled: i64 = (clamped * 255 + UNIT / 2) / UNIT;
    scaled as u8
}

impl Color {
    /// The colour whose channels are the given fractions of full intensity,
    /// each rounded to the nearest of the 256 channel values.
    pub fn from_fractions(red: i64, green: i64, blue: i64) -> (color: Color)
        ensures
            color == color_of(red as int, green as int, blue as int),
    {
        Color {
            r: channel_from_fraction(red),
            g: channel_from_fraction(green),
            b: channel_from_fraction(blue),
        }
    }

    /// The background of the whole viewport.
    pub fn sky_blue() -> (color: Color)
        ensures
            color == sky_blue(),
    {
        Color { r: 135, g: 206, b: 235 }
    }

    /// The colour of every snowflake.
    pub fn white() -> (color: Color)
        ensures
            color == white(),
    {
        Color { r: 255, g: 255, b: 255 }
    }

    /// The colour of the trunk.
    pub fn trunk_brown() -> (color: Color)
        ensures
            color == trunk_brown(),
    {
        Color { r: 139, g: 69, b: 19 }
    }

    /// The colour of the tree's silhouette.
    pub fn tree_green() -> (color: Color)
        ensures
            color == tree_green(),
    {
        Color { r: 0, g: 100, b: 0 }
    }
}

} // verus!

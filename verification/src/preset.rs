//! The built-in animations of the light strip and their device codes.

use vstd::prelude::*;

verus! {

/// A built-in animation, selected on the device by a single byte.
///
/// The variants are listed in the order of the device's own numbering: the
/// codes run from `0x86` for [`LightPreset::StaticWhite`] to `0x9C` for
/// [`LightPreset::WhiteStrobe`] without a gap.
#[derive(Copy, Clone, Debug, PartialEq, Eq, Structural)]
pub enum LightPreset {
    StaticWhite,
    RgbJumping,
    RainbowJumping,
    RgbFade,
    RainbowFade,
    RedFade,
    GreenFade,
    BlueFade,
    YellowFade,
    CyanFade,
    PurpleFade,
    WhiteFade,
    RedGreenFade,
    RedBlueFade,
    GreenBlueFade,
    SevenColorsStrobe,
    RedStrobe,
    GreenStrobe,
    BlueStrobe,
    YellowStrobe,
    CyanStrobe,
    PurpleStrobe,
    WhiteStrobe,
}

/// The lowest device code of a preset.
pub const FIRST_PRESET_CODE: u8 = 0x86;

/// The highest device code of a preset.
pub const LAST_PRESET_CODE: u8 = 0x9C;

impl LightPreset {
    /// The position of the preset in the device's numbering, from 0.
    pub open spec fn ordinal(self) -> nat {
        match self {
            LightPreset::StaticWhite => 0,
            LightPreset::RgbJumping => 1,
            LightPreset::RainbowJumping => 2,
            LightPreset::RgbFade => 3,
            LightPreset::RainbowFade => 4,
            LightPreset::RedFade => 5,
            LightPreset::GreenFade => 6,
            LightPreset::BlueFade => 7,
            LightPreset::YellowFade => 8,
            LightPreset::CyanFade => 9,
            LightPreset::PurpleFade => 10,
            LightPreset::WhiteFade => 11,
            LightPreset::RedGreenFade => 12,
            LightPreset::RedBlueFade => 13,
            LightPreset::GreenBlueFade => 14,
            LightPreset::SevenColorsStrobe => 15,
            LightPreset::RedStrobe => 16,
            LightPreset::GreenStrobe => 17,
            LightPreset::BlueStrobe => 18,
            LightPreset::YellowStrobe => 19,
            LightPreset::CyanStrobe => 20,
            LightPreset::PurpleStrobe => 21,
            LightPreset::WhiteStrobe => 22,
        }
    }

    /// The byte that selects the preset on the device: the first code plus
    /// the preset's position.
    pub open spec fn spec_code(self) -> u8 {
        (FIRST_PRESET_CODE + self.ordinal()) as u8
    }

    /// Returns the byte that selects the preset on the device.
    #[verifier::when_used_as_spec(spec_code)]
    pub fn code(self) -> (c: u8)
        ensures
            c == self.spec_code(),
            FIRST_PRESET_CODE <= c <= LAST_PRESET_CODE,
    {
        match self {
            LightPreset::StaticWhite => 0x86,
            LightPreset::RgbJumping => 0x87,
            LightPreset::RainbowJumping => 0x88,
            LightPreset::RgbFade => 0x89,
            LightPreset::RainbowFade => 0x8A,
            LightPreset::RedFade => 0x8B,
            LightPreset::GreenFade => 0x8C,
            LightPreset::BlueFade => 0x8D,
            LightPreset::YellowFade => 0x8E,
            LightPreset::CyanFade => 0x8F,
            LightPreset::PurpleFade => 0x90,
            LightPreset::WhiteFade => 0x91,
            LightPreset::RedGreenFade => 0x92,
            LightPreset::RedBlueFade => 0x93,
            LightPreset::GreenBlueFade => 0x94,
            LightPreset::SevenColorsStrobe => 0x95,
            LightPreset::RedStrobe => 0x96,
            LightPreset::GreenStrobe => 0x97,
            LightPreset::BlueStrobe => 0x98,
            LightPreset::YellowStrobe => 0x99,
            LightPreset::CyanStrobe => 0x9A,
            LightPreset::PurpleStrobe => 0x9B,
            LightPreset::WhiteStrobe => 0x9C,
        }
    }
}

} // verus!

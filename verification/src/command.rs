//! The logical commands of the light strip and their wire frames.

use crate::error::ErrorKind;
use crate::preset::LightPreset;
use vstd::prelude::*;

verus! {

/// The number of bytes in a wire frame.
pub const FRAME_LEN: usize = 9;

/// The first byte of every wire frame.
pub const FRAME_START: u8 = 0x7E;

/// The last byte of every wire frame.
pub const FRAME_END: u8 = 0xEF;

/// The highest percentage that a brightness or a speed can take.
pub const MAX_PERCENT: u8 = 100;

/// One logical operation of the light strip.
///
/// Brightness and speed of a preset are percentages: 0 is the least, 100 the
/// most that the protocol defines.
#[derive(Copy, Clone, Debug, PartialEq, Eq, Structural)]
pub enum LightsCommands {
    /// Switch the strip on or off.
    Power(bool),
    /// Show one colour.
    Rgb { r: u8, g: u8, b: u8 },
    /// Show one colour at a brightness.
    RgbBrightness { r: u8, g: u8, b: u8, l: u8 },
    /// Set the brightness of the running preset, in percent.
    PresetBrightness(u8),
    /// Set the speed of the running preset, in percent. The protocol's
    /// frame for it is not known: the command encodes to the bare template.
    PresetSpeed(u8),
    /// Run a built-in animation.
    Preset(LightPreset),
}

/// The frame that every command starts from: the start marker, five zero
/// bytes, the trailer `0xFF 0x00`, and the end marker.
pub open spec fn template() -> Seq<u8> {
    seq![0x7Eu8, 0x00u8, 0x00u8, 0x00u8, 0x00u8, 0x00u8, 0xFFu8, 0x00u8, 0xEFu8]
}

impl LightsCommands {
    /// The wire frame of the command.
    pub open spec fn frame(self) -> Seq<u8> {
        match self {
            LightsCommands::Power(true) => seq![
                0x7Eu8, 0x04u8, 0x04u8, 0xF0u8, 0x01u8, 0x00u8, 0xFFu8, 0x00u8, 0xEFu8,
            ],
            LightsCommands::Power(false) => seq![
                0x7Eu8, 0x04u8, 0x04u8, 0x00u8, 0x00u8, 0x00u8, 0xFFu8, 0x00u8, 0xEFu8,
            ],
            LightsCommands::Rgb { r, g, b } => seq![
                0x7Eu8, 0x07u8, 0x05u8, 0x03u8, r, g, b, 0x00u8, 0xEFu8,
            ],
            LightsCommands::RgbBrightness { r, g, b, l } => seq![
                0x7Eu8, 0x07u8, 0x05u8, 0x03u8, r, g, b, l, 0xEFu8,
            ],
            LightsCommands::PresetBrightness(percent) => seq![
                0x7Eu8, 0x04u8, 0x01u8, 0x03u8, percent, 0xFFu8, 0xFFu8, 0xFFu8, 0xEFu8,
            ],
            LightsCommands::PresetSpeed(_) => template(),
            LightsCommands::Preset(preset) => seq![
                0x7Eu8, 0x05u8, 0x03u8, preset.spec_code(), 0x03u8, 0xFFu8, 0xFFu8, 0x00u8, 0xEFu8,
            ],
        }
    }

    /// Whether every number of the command is in the range that the
    /// protocol defines: a percentage is at most 100.
    pub open spec fn in_range(self) -> bool {
        match self {
            LightsCommands::PresetBrightness(percent) => percent <= MAX_PERCENT,
            LightsCommands::PresetSpeed(percent) => percent <= MAX_PERCENT,
            _ => true,
        }
    }

    /// Encodes the command as its wire frame. Every command has a frame:
    /// a percentage above 100 is written into the frame as it is.
    pub fn to_bytes(&self) -> (bytes: [u8; 9])
        ensures
            bytes@ == self.frame(),
            bytes[0] == FRAME_START,
            bytes[8] == FRAME_END,
            self is PresetSpeed ==> bytes@ == template(),
    {
        let mut buf: [u8; 9] = [0x7E, 0x00, 0x00, 0x00, 0x00, 0x00, 0xFF, 0x00, 0xEF];
        match self {
            LightsCommands::Power(on) => {
                buf[1] = 0x04;
                buf[2] = 0x04;
                if *on {
                    buf[3] = 0xF0;
                    buf[4] = 0x01;
                }
            },
            LightsCommands::Rgb { r, g, b } => {
                buf[1] = 0x07;
                buf[2] = 0x05;
                buf[3] = 0x03;
                buf[4] = *r;
                buf[5] = *g;
                buf[6] = *b;
            },
            LightsCommands::RgbBrightness { r, g, b, l } => {
                buf[1] = 0x07;
                buf[2] = 0x05;
                buf[3] = 0x03;
                buf[4] = *r;
                buf[5] = *g;
                buf[6] = *b;
                buf[7] = *l;
            },
            LightsCommands::PresetBrightness(percent) => {
                buf[1] = 0x04;
                buf[2] = 0x01;
                buf[3] = 0x03;
                buf[4] = *percent;
                buf[5] = 0xFF;
                buf[6] = 0xFF;
                buf[7] = 0xFF;
            },
            LightsCommands::PresetSpeed(_) => {},
            LightsCommands::Preset(preset) => {
                buf[1] = 0x05;
                buf[2] = 0x03;
                buf[3] = preset.code();
                buf[4] = 0x03;
                buf[5] = 0xFF;
            },
        }
        buf
    }

    /// Checks the numbers of the command against the ranges that the
    /// protocol defines.
    pub fn check_range(&self) -> (checked: Result<(), ErrorKind>)
        ensures
            checked is Ok <==> self.in_range(),
            checked is Err ==> checked == Err::<(), ErrorKind>(ErrorKind::EncodingAmbiguity),
    {
        let in_range: bool = match self {
            LightsCommands::PresetBrightness(percent) => *percent <= MAX_PERCENT,
            LightsCommands::PresetSpeed(percent) => *percent <= MAX_PERCENT,
            _ => true,
        };
        if in_range {
            Ok(())
        } else {
            Err(ErrorKind::EncodingAmbiguity)
        }
    }
}

/// Every frame is nine bytes long, begins with the start marker and ends
/// with the end marker.
pub proof fn lemma_frame_shape(command: LightsCommands)
    ensures
        command.frame().len() == FRAME_LEN,
        command.frame()[0] == FRAME_START,
        command.frame()[FRAME_LEN - 1] == FRAME_END,
{
}

/// Whatever speed is asked for, the frame of a preset speed command is the
/// bare template.
pub proof fn lemma_preset_speed_is_template(percent: u8)
    ensures
        LightsCommands::PresetSpeed(percent).frame() == template(),
{
}

/// The frame depends on the command alone: encoding the same command twice
/// gives the same bytes.
pub proof fn lemma_frame_is_repeatable(first: LightsCommands, second: LightsCommands)
    requires
        first == second,
    ensures
        first.frame() == second.frame(),
{
}

} // verus!

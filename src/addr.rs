//! Addresses of the chip's fourteen registers.

use vstd::prelude::*;

verus! {

pub const TONE_FINE_CHANNEL_A: u8 = 0x0;
pub const TONE_COARSE_CHANNEL_A: u8 = 0x1;
pub const TONE_FINE_CHANNEL_B: u8 = 0x2;
pub const TONE_COARSE_CHANNEL_B: u8 = 0x3;
pub const TONE_FINE_CHANNEL_C: u8 = 0x4;
pub const TONE_COARSE_CHANNEL_C: u8 = 0x5;
pub const NOISE: u8 = 0x6;
pub const MIXER_ENABLE: u8 = 0x7;
pub const AMPLITUDE_CHANNEL_A: u8 = 0x8;
pub const AMPLITUDE_CHANNEL_B: u8 = 0x9;
pub const AMPLITUDE_CHANNEL_C: u8 = 0xA;
pub const COARSE_TUNE: u8 = 0xB;
pub const FINE_TUNE: u8 = 0xC;
pub const SHAPE_CYCLE: u8 = 0xD;

} // verus!

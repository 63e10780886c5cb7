//! Amplitude encoder: a channel's volume is either a fixed four-bit level or
//! handed over to the envelope generator.

use vstd::prelude::*;

use crate::addr;
use crate::chip::{Channel, Packet};

verus! {

/// How a channel's volume is set.
#[derive(Clone, Copy, Debug, PartialEq, Eq, Structural)]
pub enum Mode {
    /// The level given with the command.
    Fixed,
    /// The envelope generator's output.
    Variable,
}

/// Bit of the amplitude register that hands the volume to the envelope.
pub const ENVELOPE_CONTROL: u8 = 0x10;

/// Address of a channel's amplitude register.
pub open spec fn amplitude_address(chan: Channel) -> u8 {
    match chan {
        Channel::A => addr::AMPLITUDE_CHANNEL_A,
        Channel::B => addr::AMPLITUDE_CHANNEL_B,
        Channel::C => addr::AMPLITUDE_CHANNEL_C,
    }
}

/// The amplitude byte: the low four bits of `level` in fixed mode, the
/// envelope-control bit alone in variable mode.
pub open spec fn amplitude_value(mode: Mode, level: u8) -> u8 {
    match mode {
        Mode::Fixed => level % 16,
        Mode::Variable => 0x10,
    }
}

/// Encodes the volume of channel `chan`.
pub fn set(chan: &Channel, mode: &Mode, level: u8) -> (r: Packet)
    ensures
        r.address == amplitude_address(*chan),
        r.value == amplitude_value(*mode, level),
{
    let addr = match chan {
        Channel::A => addr::AMPLITUDE_CHANNEL_A,
        Channel::B => addr::AMPLITUDE_CHANNEL_B,
        Channel::C => addr::AMPLITUDE_CHANNEL_C,
    };
    let val = match mode {
        Mode::Fixed => {
            assert(level & 0xF == level % 16) by (bit_vector);
            level & 0xF
        },
        Mode::Variable => ENVELOPE_CONTROL,
    };

    Packet { address: addr, value: val }
}

} // verus!

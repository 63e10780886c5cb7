//! Mixer encoder: which tone and noise sources reach each channel.

use vstd::prelude::*;

use crate::addr;
use crate::chip::{bit_of, get_bit, put_bit, with_bit, Packet}; 

verus! {

/// The mixer flags, one per bit: tone enable for channels A to C (bits 0 to
/// 2), noise enable for channels A to C (bits 3 to 5) and the two
/// external-input enables (bits 6 and 7).
#[derive(Clone, Copy, Debug, PartialEq, Eq, Structural)]
pub struct Settings(pub u8);

impl Settings {
    pub fn tone_channel_a(&self) -> (r: bool)
        ensures
            r == bit_of(self.0, 0),
    {
        get_bit(self.0, 0)
    }

    pub fn set_tone_channel_a(&mut self, value: bool)
        ensures
            final(self).0 == with_bit(old(self).0, 0, value),
    {
        self.0 = put_bit(self.0, 0, value);
    }

    pub fn tone_channel_b(&self) -> (r: bool)
        ensures
            r == bit_of(self.0, 1),
    {
        get_bit(self.0, 1)
    }

    pub fn set_tone_channel_b(&mut self, value: bool)
        ensures
            final(self).0 == with_bit(old(self).0, 1, value),
    {
        self.0 = put_bit(self.0, 1, value);
    }

    pub fn tone_channel_c(&self) -> (r: bool)
        ensures
            r == bit_of(self.0, 2),
    {
        get_bit(self.0, 2)
    }

    pub fn set_tone_channel_c(&mut self, value: bool)
        ensures
            final(self).0 == with_bit(old(self).0, 2, value),
    {
        self.0 = put_bit(self.0, 2, value);
    }

    pub fn noise_channel_a(&self) -> (r: bool)
        ensures
            r == bit_of(self.0, 3),
    {
        get_bit(self.0, 3)
    }

    pub fn set_noise_channel_a(&mut self, value: bool)
        ensures
            final(self).0 == with_bit(old(self).0, 3, value),
    {
        self.0 = put_bit(self.0, 3, value);
    }

    pub fn noise_channel_b(&self) -> (r: bool)
        ensures
            r == bit_of(self.0, 4),
    {
        get_bit(self.0, 4)
    }

    pub fn set_noise_channel_b(&mut self, value: bool)
        ensures
            final(self).0 == with_bit(old(self).0, 4, value),
    {
        self.0 = put_bit(self.0, 4, value);
    }

    pub fn noise_channel_c(&self) -> (r: bool)
        ensures
            r == bit_of(self.0, 5),
    {
        get_bit(self.0, 5)
    }

    pub fn set_noise_channel_c(&mut self, value: bool)
        ensures
            final(self).0 == with_bit(old(self).0, 5, value),
    {
        self.0 = put_bit(self.0, 5, value);
    }

    pub fn input_enable_a(&self) -> (r: bool)
        ensures
            r == bit_of(self.0, 6),
    {
        get_bit(self.0, 6)
    }

    pub fn set_input_enable_a(&mut self, value: bool)
        ensures
            final(self).0 == with_bit(old(self).0, 6, value),
    {
        self.0 = put_bit(self.0, 6, value);
    }

    pub fn input_enable_b(&self) -> (r: bool)
        ensures
            r == bit_of(self.0, 7),
    {
        get_bit(self.0, 7)
    }

    pub fn set_input_enable_b(&mut self, value: bool)
        ensures
            final(self).0 == with_bit(old(self).0, 7, value),
    {
        self.0 = put_bit(self.0, 7, value);
    }
}

/// Bits of the mixer register that the chip reads.
pub const MIXER_MASK: u8 = 0x3F;

/// Encodes the mixer flags. The two external-input bits are always cleared
/// in the byte sent, whatever `settings` holds; the other six are sent as
/// they are.
pub fn set(settings: &Settings) -> (r: Packet)
    ensures
        r.address == addr::MIXER_ENABLE,
        r.value == settings.0 % 64,
        forall|i: u8| i < 6 ==> bit_of(r.value, i) == bit_of(settings.0, i),
        !bit_of(r.value, 6),
        !bit_of(r.value, 7),
{
    let v = settings.0;
    let value = v & MIXER_MASK;
    assert(v & 0x3F == v % 64) by (bit_vector);
    assert forall|i: u8| i < 6 implies bit_of(value, i) == bit_of(v, i) by {
        assert(((v & 0x3F) >> i) & 1 == (v >> i) & 1) by (bit_vector)
            requires
                i < 6,
        ;
    }
    assert(((v & 0x3F) >> 6u8) & 1 == 0) by (bit_vector);
    assert(((v & 0x3F) >> 7u8) & 1 == 0) by (bit_vector);
    Packet { address: addr::MIXER_ENABLE, value }
}

} // verus!

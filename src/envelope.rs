//! Envelope encoders: the period of the shared envelope generator and the
//! shape of the curve it follows.

use vstd::prelude::*;

use crate::addr;
use crate::chip::{bit_of, get_bit, put_bit, with_bit, Packet};

verus! {

/// Width of one envelope period register.
pub const COEFF: u64 = 256;

/// The envelope clock divider for a frequency of `freq_num / freq_den` Hz:
/// `clock_freq / (256 * freq)` rounded down, and held at `u32::MAX` where it
/// would not fit in 32 bits.
pub open spec fn envelope_divider(freq_num: u32, freq_den: u32, clock_freq: u32) -> nat
    recommends
        freq_num > 0,
{
    let exact = (clock_freq as nat * freq_den as nat) / (256 * freq_num as nat);
    if exact > u32::MAX {
        u32::MAX as nat
    } else {
        exact
    }
}

/// The two packets that set the envelope period: the coarse byte first,
/// then the fine byte.
pub open spec fn envelope_packets(freq_num: u32, freq_den: u32, clock_freq: u32) -> [Packet; 2]
    recommends
        freq_num > 0,
{
    [
        Packet {
            address: addr::COARSE_TUNE,
            value: ((envelope_divider(freq_num, freq_den, clock_freq) / 256) % 256) as u8,
        },
        Packet {
            address: addr::FINE_TUNE,
            value: (envelope_divider(freq_num, freq_den, clock_freq) % 256) as u8,
        },
    ]
}

/// Encodes an envelope frequency of `freq_num / freq_den` Hz.
pub fn period(freq_num: u32, freq_den: u32, clock_freq: u32) -> (r: [Packet; 2])
    requires
        freq_num > 0,
    ensures
        r == envelope_packets(freq_num, freq_den, clock_freq),
{
    assert(clock_freq as u64 * freq_den as u64 <= 0xFFFF_FFFF * 0xFFFF_FFFF) by (nonlinear_arith);
    let scaled: u64 = clock_freq as u64 * freq_den as u64;
    let per_hz: u64 = COEFF * freq_num as u64;
    let exact: u64 = scaled / per_hz;
    let clk_div: u64 = if exact > 0xFFFF_FFFF {
        0xFFFF_FFFF
    } else {
        exact
    };
    let env_per_coarse = ((clk_div / COEFF) % 256) as u8;
    let env_per_fine = (clk_div % COEFF) as u8;

    let r = [
        Packet { address: addr::COARSE_TUNE, value: env_per_coarse },
        Packet { address: addr::FINE_TUNE, value: env_per_fine },
    ];
    assert(r =~= envelope_packets(freq_num, freq_den, clock_freq));
    r
}

/// The four flags of the envelope shape register, one per bit.
#[derive(Clone, Copy, Debug, PartialEq, Eq, Structural)]
pub struct ShapeCycle(pub u8);

pub const HOLD_BIT: u8 = 0;
pub const ALTERNATE_BIT: u8 = 1;
pub const ATTACK_BIT: u8 = 2;
pub const CONT_BIT: u8 = 3;

impl ShapeCycle {
    pub fn hold(&self) -> (r: bool)
        ensures
            r == bit_of(self.0, HOLD_BIT),
    {
        get_bit(self.0, HOLD_BIT)
    }

    pub fn set_hold(&mut self, value: bool)
        ensures
            final(self).0 == with_bit(old(self).0, HOLD_BIT, value),
    {
        self.0 = put_bit(self.0, HOLD_BIT, value);
    }

    pub fn alternate(&self) -> (r: bool)
        ensures
            r == bit_of(self.0, ALTERNATE_BIT),
    {
        get_bit(self.0, ALTERNATE_BIT)
    }

    pub fn set_alternate(&mut self, value: bool)
        ensures
            final(self).0 == with_bit(old(self).0, ALTERNATE_BIT, value),
    {
        self.0 = put_bit(self.0, ALTERNATE_BIT, value);
    }

    pub fn attack(&self) -> (r: bool)
        ensures
            r == bit_of(self.0, ATTACK_BIT),
    {
        get_bit(self.0, ATTACK_BIT)
    }

    pub fn set_attack(&mut self, value: bool)
        ensures
            final(self).0 == with_bit(old(self).0, ATTACK_BIT, value),
    {
        self.0 = put_bit(self.0, ATTACK_BIT, value);
    }

    pub fn cont(&self) -> (r: bool)
        ensures
            r == bit_of(self.0, CONT_BIT),
    {
        get_bit(self.0, CONT_BIT)
    }

    pub fn set_cont(&mut self, value: bool)
        ensures
            final(self).0 == with_bit(old(self).0, CONT_BIT, value),
    {
        self.0 = put_bit(self.0, CONT_BIT, value);
    }
}

/// The curves that the envelope generator can follow.
#[derive(Clone, Copy, Debug, PartialEq, Eq, Structural)]
pub enum ShapeType {
    OneShotSaw,
    RampDown,
    RampUp,
    RepeatedSaw,
    RepeatedTriangle,
}

/// The shape register byte of each curve: attack alone, nothing, hold with
/// attack and continue, continue alone, continue with alternate.
pub open spec fn shape_value(shape_type: ShapeType) -> u8 {
    match shape_type {
        ShapeType::OneShotSaw => 0x4,
        ShapeType::RampDown => 0x0,
        ShapeType::RampUp => 0xD,
        ShapeType::RepeatedSaw => 0x8,
        ShapeType::RepeatedTriangle => 0xA,
    }
}

/// Encodes the curve of the envelope generator.
pub fn shape(shape_type: &ShapeType) -> (r: Packet)
    ensures
        r.address == addr::SHAPE_CYCLE,
        r.value == shape_value(*shape_type),
        r.value < 16,
{
    let mut shape = ShapeCycle(0);

    match shape_type {
        ShapeType::OneShotSaw => {
            shape.set_attack(true);
            assert(0u8 | (1u8 << 2u8) == 0x4) by (bit_vector);
        },
        ShapeType::RampDown => {
            shape.0 = 0;
        },
        ShapeType::RampUp => {
            shape.set_hold(true);
            shape.set_attack(true);
            shape.set_cont(true);
            assert(((0u8 | (1u8 << 0u8)) | (1u8 << 2u8)) | (1u8 << 3u8) == 0xD) by (bit_vector);
        },
        ShapeType::RepeatedSaw => {
            shape.set_cont(true);
            assert(0u8 | (1u8 << 3u8) == 0x8) by (bit_vector);
        },
        ShapeType::RepeatedTriangle => {
            shape.set_cont(true);
            shape.set_alternate(true);
            assert((0u8 | (1u8 << 3u8)) | (1u8 << 1u8) == 0xA) by (bit_vector);
        },
    }

    Packet { address: addr::SHAPE_CYCLE, value: shape.0 }
}

} // verus!

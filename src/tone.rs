//! Tone period encoder: a frequency in Hz for one channel becomes the fine
//! and coarse bytes of that channel's twelve-bit period counter.

use vstd::prelude::*;

use crate::addr;
use crate::chip::{Channel, Packet, CLOCK_COUNTDOWN_COEFF};

verus! {

/// Width of one period register.
pub const MEMORY_WIDTH: u32 = 256;

/// The counter period that gives `freq` Hz from a `clock_freq` Hz clock.
pub open spec fn tone_period(freq: u32, clock_freq: u32) -> nat
    recommends
        freq > 0,
{
    (clock_freq as nat / (16 * freq as nat)) as nat
}

/// Address of a channel's fine period register.
pub open spec fn fine_address(chan: Channel) -> u8 {
    match chan {
        Channel::A => addr::TONE_FINE_CHANNEL_A,
        Channel::B => addr::TONE_FINE_CHANNEL_B,
        Channel::C => addr::TONE_FINE_CHANNEL_C,
    }
}

/// Address of a channel's coarse period register.
pub open spec fn coarse_address(chan: Channel) -> u8 {
    match chan {
        Channel::A => addr::TONE_COARSE_CHANNEL_A,
        Channel::B => addr::TONE_COARSE_CHANNEL_B,
        Channel::C => addr::TONE_COARSE_CHANNEL_C,
    }
}

/// The two packets that set `chan` to `freq` Hz: the fine byte first, then
/// the coarse byte, each the low eight bits of its part of the period.
pub open spec fn tone_packets(chan: Channel, freq: u32, clock_freq: u32) -> [Packet; 2]
    recommends
        freq > 0,
{
    [
        Packet {
            address: fine_address(chan),
            value: (tone_period(freq, clock_freq) % 256) as u8,
        },
        Packet {
            address: coarse_address(chan),
            value: ((tone_period(freq, clock_freq) / 256) % 256) as u8,
        },
    ]
}

/// Encodes a tone frequency of `freq` Hz on channel `chan`.
pub fn period(chan: &Channel, freq: u32, clock_freq: u32) -> (r: [Packet; 2])
    requires
        freq > 0,
    ensures
        r == tone_packets(*chan, freq, clock_freq),
{
    let coeff: u64 = CLOCK_COUNTDOWN_COEFF as u64;
    assert(coeff == 16);
    let scaled_freq: u64 = coeff * freq as u64;
    let tone_period: u64 = clock_freq as u64 / scaled_freq;
    let coarse = ((tone_period / MEMORY_WIDTH as u64) % 256) as u8;
    let fine = (tone_period % MEMORY_WIDTH as u64) as u8;

    let (fine_channel_addr, coarse_channel_addr) = match chan {
        Channel::A => (addr::TONE_FINE_CHANNEL_A, addr::TONE_COARSE_CHANNEL_A),
        Channel::B => (addr::TONE_FINE_CHANNEL_B, addr::TONE_COARSE_CHANNEL_B),
        Channel::C => (addr::TONE_FINE_CHANNEL_C, addr::TONE_COARSE_CHANNEL_C),
    };

    let r = [
        Packet { address: fine_channel_addr, value: fine },
        Packet { address: coarse_channel_addr, value: coarse },
    ];
    assert(r =~= tone_packets(*chan, freq, clock_freq));
    r
}

} // verus!

//! Noise period encoder: a frequency in Hz becomes the five-bit period of
//! the shared noise generator.

use vstd::prelude::*;

use crate::addr;
use crate::chip::{Packet, CLOCK_COUNTDOWN_COEFF};

verus! {

/// The noise period byte for `freq` Hz: zero stops the generator, any other
/// frequency keeps the low five bits of the counter period.
pub open spec fn noise_value(freq: u32, clock_freq: u32) -> u8 {
    if freq == 0 {
        0
    } else {
        ((clock_freq as nat / (16 * freq as nat)) % 32) as u8
    }
}

/// Encodes a noise frequency of `freq` Hz.
pub fn period(freq: u32, clock_freq: u32) -> (r: Packet)
    ensures
        r.address == addr::NOISE,
        r.value == noise_value(freq, clock_freq),
        r.value < 32,
{
    let mut period: u8 = 0;
    if freq > 0 {
        let coeff: u64 = CLOCK_COUNTDOWN_COEFF as u64;
        assert(coeff == 16);
        let scaled_freq: u64 = coeff * freq as u64;
        let counter: u64 = clock_freq as u64 / scaled_freq;
        assert(counter & 0x1F <= 0x1F) by (bit_vector);
        period = (counter & 0x1F) as u8;
        assert(counter & 0x1F == counter % 32) by (bit_vector);
    }
    Packet { address: addr::NOISE, value: period }
}

} // verus!

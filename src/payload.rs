//! Commands: each names one musical setting and resolves to the packets
//! that make it.

use vstd::prelude::*;

use crate::addr;
use crate::amplitude::{self, amplitude_address, amplitude_value, Mode};
use crate::chip::{Channel, Packet};
use crate::envelope::{self, envelope_packets, shape_value, ShapeType};
use crate::mixer::{self, Settings};
use crate::noise::{self, noise_value};
use crate::tone::{self, tone_packets};

verus! {

/// The register writes of one command, in the order they are made.
#[derive(Clone, Copy, Debug)]
pub enum DataPayload {
    Single(Packet),
    Double([Packet; 2]),
}

/// A command that resolves to a payload for a chip clocked at a given
/// frequency.
pub trait PayloadGenerator {
    /// Whether the command's parameters can be encoded.
    spec fn accepted(&self) -> bool;

    /// The payload of the command for a `clock_freq` Hz master clock.
    spec fn payload(&self, clock_freq: u32) -> DataPayload;

    fn get(&self, clock_freq: u32) -> (r: DataPayload)
        requires
            self.accepted(),
        ensures
            r == self.payload(clock_freq),
    ;
}

/// Sets the tone frequency, in Hz, of one channel.
pub struct ToneControl {
    pub chan: Channel,
    pub freq: u32,
}

impl PayloadGenerator for ToneControl {
    open spec fn accepted(&self) -> bool {
        self.freq > 0
    }

    open spec fn payload(&self, clock_freq: u32) -> DataPayload {
        DataPayload::Double(tone_packets(self.chan, self.freq, clock_freq))
    }

    fn get(&self, clock_freq: u32) -> (r: DataPayload) {
        DataPayload::Double(tone::period(&self.chan, self.freq, clock_freq))
    }
}

/// Sets the noise frequency in Hz; zero stops the noise generator.
pub struct NoiseControl {
    pub freq: u32,
}

impl PayloadGenerator for NoiseControl {
    open spec fn accepted(&self) -> bool {
        true
    }

    open spec fn payload(&self, clock_freq: u32) -> DataPayload {
        DataPayload::Single(
            Packet { address: addr::NOISE, value: noise_value(self.freq, clock_freq) },
        )
    }

    fn get(&self, clock_freq: u32) -> (r: DataPayload) {
        DataPayload::Single(noise::period(self.freq, clock_freq))
    }
}

/// Sets the volume of one channel.
pub struct AmplitudeControl {
    pub chan: Channel,
    pub mode: Mode,
    pub level: u8,
}

impl PayloadGenerator for AmplitudeControl {
    open spec fn accepted(&self) -> bool {
        true
    }

    open spec fn payload(&self, clock_freq: u32) -> DataPayload {
        DataPayload::Single(
            Packet {
                address: amplitude_address(self.chan),
                value: amplitude_value(self.mode, self.level),
            },
        )
    }

    fn get(&self, clock_freq: u32) -> (r: DataPayload) {
        DataPayload::Single(amplitude::set(&self.chan, &self.mode, self.level))
    }
}

/// Sets the curve of the envelope generator.
pub struct EnvelopeShapeCycleControl {
    pub shape: ShapeType,
}

impl PayloadGenerator for EnvelopeShapeCycleControl {
    open spec fn accepted(&self) -> bool {
        true
    }

    open spec fn payload(&self, clock_freq: u32) -> DataPayload {
        DataPayload::Single(
            Packet { address: addr::SHAPE_CYCLE, value: shape_value(self.shape) },
        )
    }

    fn get(&self, clock_freq: u32) -> (r: DataPayload) {
        DataPayload::Single(envelope::shape(&self.shape))
    }
}

/// Sets the envelope frequency to `freq_num / freq_den` Hz.
pub struct EnvelopeFrequencyControl {
    pub freq_num: u32,
    pub freq_den: u32,
}

impl PayloadGenerator for EnvelopeFrequencyControl {
    open spec fn accepted(&self) -> bool {
        self.freq_num > 0
    }

    open spec fn payload(&self, clock_freq: u32) -> DataPayload {
        DataPayload::Double(envelope_packets(self.freq_num, self.freq_den, clock_freq))
    }

    fn get(&self, clock_freq: u32) -> (r: DataPayload) {
        DataPayload::Double(envelope::period(self.freq_num, self.freq_den, clock_freq))
    }
}

/// Sets which sources reach each channel.
pub struct MixerControl {
    pub settings: Settings,
}

impl PayloadGenerator for MixerControl {
    open spec fn accepted(&self) -> bool {
        true
    }

    open spec fn payload(&self, clock_freq: u32) -> DataPayload {
        DataPayload::Single(
            Packet { address: addr::MIXER_ENABLE, value: self.settings.0 % 64 },
        )
    }

    fn get(&self, clock_freq: u32) -> (r: DataPayload) {
        DataPayload::Single(mixer::set(&self.settings))
    }
}

} // verus!

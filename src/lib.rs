//! Driver for a three-voice programmable sound generator.
//!
//! The library turns musical parameters into register packets and each
//! packet into the exact sequence of control-line and bus operations that
//! writes it into the chip. Driving real pins is left to the caller, who
//! replays the operations that the driver hands out.

pub mod addr;
pub mod chip;
pub mod tone;
pub mod noise;
pub mod amplitude;
pub mod envelope;
pub mod mixer;
pub mod bus;
pub mod payload;
pub mod driver;

pub use amplitude::Mode as AmplitudeMode;
pub use envelope::ShapeType as EnvelopeShapeType;
pub use mixer::Settings as MixerSettings;

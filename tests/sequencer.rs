use ay_driver::addr;
use ay_driver::bus::{AddressBus, BusCtrl, BusOp, BusState, Line};
use ay_driver::chip::{parse_clock_freq, Channel, ConfigError};
use ay_driver::driver::Driver;
use ay_driver::envelope::ShapeType;
use ay_driver::mixer::Settings;
use ay_driver::payload::{
    AmplitudeControl, EnvelopeFrequencyControl, EnvelopeShapeCycleControl, MixerControl,
    NoiseControl, PayloadGenerator, ToneControl, DataPayload,
};
use ay_driver::AmplitudeMode;

/// Levels of the four lines, replayed from a trace.
#[derive(Clone, Copy, Debug, PartialEq)]
struct Pins {
    bdir: bool,
    bc1: bool,
    bc2: bool,
    latch: bool,
}

fn apply(pins: &mut Pins, op: &BusOp) {
    if let BusOp::Drive(line, high) = *op {
        match line {
            Line::Bdir => pins.bdir = high,
            Line::Bc1 => pins.bc1 = high,
            Line::Bc2 => pins.bc2 = high,
            Line::Latch => pins.latch = high,
        }
    }
}

fn sent(ops: &[BusOp]) -> Vec<u8> {
    ops.iter()
        .filter_map(|op| match op {
            BusOp::Send(b) => Some(*b),
            _ => None,
        })
        .collect()
}

const IDLE: (bool, bool, bool) = (false, false, true);
const LATCH: (bool, bool, bool) = (true, true, true);
const WRITE: (bool, bool, bool) = (true, false, true);

#[test]
fn write_sequence_levels_at_each_step() {
    let mut driver = Driver::new(2000000);
    driver.write(NoiseControl { freq: 4000 });
    let ops = driver.take_ops();
    assert_eq!(ops.len(), 24);
    assert_eq!(sent(&ops), vec![addr::NOISE, 0x1F]);

    let expected = [IDLE, LATCH, LATCH, IDLE, IDLE, IDLE, WRITE, IDLE];
    let mut pins = Pins { bdir: true, bc1: true, bc2: false, latch: false };
    for (step, chunk) in ops.chunks(3).enumerate() {
        for op in chunk {
            apply(&mut pins, op);
        }
        assert_eq!((pins.bdir, pins.bc1, pins.bc2), expected[step], "step {}", step);
    }
    assert!(pins.latch);
}

#[test]
fn write_sequence_exact_trace() {
    let mut driver = Driver::new(2000000);
    driver.write(EnvelopeShapeCycleControl { shape: ShapeType::RampUp });
    let ops = driver.take_ops();
    let idle = [
        BusOp::Drive(Line::Bdir, false),
        BusOp::Drive(Line::Bc1, false),
        BusOp::Drive(Line::Bc2, true),
    ];
    let mut want = Vec::new();
    want.extend_from_slice(&idle);
    want.extend_from_slice(&[
        BusOp::Drive(Line::Bdir, true),
        BusOp::Drive(Line::Bc1, true),
        BusOp::Drive(Line::Bc2, true),
    ]);
    want.extend_from_slice(&[
        BusOp::Drive(Line::Latch, false),
        BusOp::Send(addr::SHAPE_CYCLE),
        BusOp::Drive(Line::Latch, true),
    ]);
    want.extend_from_slice(&idle);
    want.extend_from_slice(&idle);
    want.extend_from_slice(&[
        BusOp::Drive(Line::Latch, false),
        BusOp::Send(0xD),
        BusOp::Drive(Line::Latch, true),
    ]);
    want.extend_from_slice(&[
        BusOp::Drive(Line::Bdir, true),
        BusOp::Drive(Line::Bc1, false),
        BusOp::Drive(Line::Bc2, true),
    ]);
    want.extend_from_slice(&idle);
    assert_eq!(ops, want);
}

#[test]
fn double_payload_written_in_encoder_order() {
    let mut driver = Driver::new(2000000);
    driver.write(ToneControl { chan: Channel::B, freq: 100 });
    let ops = driver.take_ops();
    assert_eq!(ops.len(), 48);
    assert_eq!(
        sent(&ops),
        vec![addr::TONE_FINE_CHANNEL_B, 226, addr::TONE_COARSE_CHANNEL_B, 4]
    );

    driver.write(EnvelopeFrequencyControl { freq_num: 1, freq_den: 2 });
    let ops = driver.take_ops();
    assert_eq!(sent(&ops), vec![addr::COARSE_TUNE, 61, addr::FINE_TUNE, 9]);
}

#[test]
fn pending_ops_accumulate_until_taken() {
    let mut driver = Driver::new(1000000);
    assert_eq!(driver.clock_freq(), 1000000);
    driver.write(AmplitudeControl { chan: Channel::C, mode: AmplitudeMode::Fixed, level: 9 });
    driver.write(MixerControl { settings: Settings(0xC7) });
    let ops = driver.take_ops();
    assert_eq!(
        sent(&ops),
        vec![addr::AMPLITUDE_CHANNEL_C, 9, addr::MIXER_ENABLE, 0x07]
    );
    assert!(driver.take_ops().is_empty());
}

#[test]
fn commands_resolve_to_encoder_payloads() {
    match (ToneControl { chan: Channel::A, freq: 1000 }).get(2000000) {
        DataPayload::Double(p) => {
            assert_eq!((p[0].address, p[0].value), (addr::TONE_FINE_CHANNEL_A, 125));
            assert_eq!((p[1].address, p[1].value), (addr::TONE_COARSE_CHANNEL_A, 0));
        }
        DataPayload::Single(_) => panic!("tone is two packets"),
    }
    match (NoiseControl { freq: 0 }).get(2000000) {
        DataPayload::Single(p) => assert_eq!((p.address, p.value), (addr::NOISE, 0)),
        DataPayload::Double(_) => panic!("noise is one packet"),
    }
}

#[test]
fn bus_parts_record_their_steps() {
    let mut ops = Vec::new();
    let mut ctrl = BusCtrl::new();
    assert_eq!(ctrl.state(), None);
    ctrl.latch_address(&mut ops);
    assert_eq!(ctrl.state(), Some(BusState::LatchAddress));
    ctrl.write_to_psg(&mut ops);
    assert_eq!(ctrl.state(), Some(BusState::WriteData));
    ctrl.set_inactive(&mut ops);
    assert_eq!(ctrl.state(), Some(BusState::Idle));
    let mut bus = AddressBus::new();
    assert_eq!(bus.latched(), None);
    bus.write(0x42, &mut ops);
    assert_eq!(bus.latched(), Some(0x42));
    assert_eq!(ops.len(), 12);
    assert_eq!(ops[9..], [
        BusOp::Drive(Line::Latch, false),
        BusOp::Send(0x42),
        BusOp::Drive(Line::Latch, true),
    ]);
}

#[test]
fn clock_config_parses() {
    assert_eq!(parse_clock_freq("2000000"), Ok(2000000));
    assert_eq!(parse_clock_freq("4294967295"), Ok(u32::MAX));
    assert_eq!(parse_clock_freq("007"), Ok(7));
}

#[test]
fn clock_config_errors() {
    assert_eq!(parse_clock_freq(""), Err(ConfigError::Missing));
    assert_eq!(parse_clock_freq("2MHz"), Err(ConfigError::NotNumeric));
    assert_eq!(parse_clock_freq("-5"), Err(ConfigError::NotNumeric));
    assert_eq!(parse_clock_freq("4294967296"), Err(ConfigError::OutOfRange));
    assert_eq!(parse_clock_freq("99999999999999999999999"), Err(ConfigError::OutOfRange));
    assert_eq!(parse_clock_freq("000"), Err(ConfigError::Zero));
}

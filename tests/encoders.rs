use ay_driver::addr;
use ay_driver::amplitude::{set as amplitude_set, Mode};
use ay_driver::chip::Channel;
use ay_driver::envelope::{period as envelope_period, shape, ShapeCycle, ShapeType};
use ay_driver::mixer::{set as mixer_set, Settings};
use ay_driver::noise::period as noise_period;
use ay_driver::tone::period as tone_period;

#[test]
fn test_amplitude_set_fixed_mode() {
    let packet = amplitude_set(&Channel::A, &Mode::Fixed, 2);

    assert_eq!(packet.address, addr::AMPLITUDE_CHANNEL_A);
    assert_eq!(packet.value, 2);
}

#[test]
fn test_amplitude_set_variable_mode() {
    let packet = amplitude_set(&Channel::A, &Mode::Variable, 2);

    assert_eq!(packet.address, addr::AMPLITUDE_CHANNEL_A);
    assert_eq!(packet.value, 1 << 4);
}

#[test]
fn test_envelope_shape() {
    let packet = shape(&ShapeType::RepeatedTriangle);

    assert_eq!(packet.address, addr::SHAPE_CYCLE);
    assert_eq!(packet.value, 0xA);
}

#[test]
fn test_envelope_period() {
    // 0.5 Hz, written as 1/2.
    let packets = envelope_period(1, 2, 2000000);

    assert_eq!(packets[0].address, addr::COARSE_TUNE);
    assert_eq!(packets[0].value, 61);
    assert_eq!(packets[1].address, addr::FINE_TUNE);
    assert_eq!(packets[1].value, 9);
}

#[test]
fn test_mixer_settings() {
    let mut settings = Settings(0);
    settings.set_tone_channel_a(true);

    let packet = mixer_set(&settings);

    assert_eq!(packet.address, addr::MIXER_ENABLE);
    assert_eq!(packet.value, 0x1);
}

#[test]
fn test_noise_period() {
    let packet = noise_period(4000, 2000000);

    assert_eq!(packet.address, addr::NOISE);
    assert_eq!(packet.value, 0x1F);
}

#[test]
fn test_tone_period() {
    let packets = tone_period(&Channel::A, 1000, 2000000);

    assert_eq!(packets[0].address, addr::TONE_FINE_CHANNEL_A);
    assert_eq!(packets[0].value, 125);
    assert_eq!(packets[1].address, addr::TONE_COARSE_CHANNEL_A);
    assert_eq!(packets[1].value, 0);
}

#[test]
fn tone_period_every_channel() {
    let b = tone_period(&Channel::B, 1000, 2000000);
    assert_eq!((b[0].address, b[0].value), (addr::TONE_FINE_CHANNEL_B, 125));
    assert_eq!((b[1].address, b[1].value), (addr::TONE_COARSE_CHANNEL_B, 0));
    let c = tone_period(&Channel::C, 1000, 2000000);
    assert_eq!((c[0].address, c[0].value), (addr::TONE_FINE_CHANNEL_C, 125));
    assert_eq!((c[1].address, c[1].value), (addr::TONE_COARSE_CHANNEL_C, 0));
}

#[test]
fn tone_period_splits_into_fine_and_coarse() {
    // 2_000_000 / (16 * 100) = 1250 = 4 * 256 + 226
    let p = tone_period(&Channel::A, 100, 2000000);
    assert_eq!(p[0].value, 226);
    assert_eq!(p[1].value, 4);
}

#[test]
fn tone_period_coarse_keeps_low_byte() {
    // u32::MAX / 16 = 268435455; / 256 = 1048575, whose low byte is 0xFF
    let p = tone_period(&Channel::A, 1, u32::MAX);
    assert_eq!(p[0].value, 0xFF);
    assert_eq!(p[1].value, 0xFF);
}

#[test]
fn tone_period_largest_frequency() {
    let p = tone_period(&Channel::A, u32::MAX, 2000000);
    assert_eq!(p[0].value, 0);
    assert_eq!(p[1].value, 0);
}

#[test]
fn noise_period_zero_stops() {
    let packet = noise_period(0, 2000000);
    assert_eq!(packet.address, addr::NOISE);
    assert_eq!(packet.value, 0);
}

#[test]
fn noise_period_wraps_through_mask() {
    // 2_000_000 / (16 * 1000) = 125 = 0b111_1101, low five bits 0b1_1101
    assert_eq!(noise_period(1000, 2000000).value, 0x1D);
    // 2_000_000 / (16 * 3907) = 31
    assert_eq!(noise_period(3907, 2000000).value, 31);
}

#[test]
fn envelope_period_coarse_packet_first() {
    // 2_000_000 / (256 * 3500) = 2
    let p = envelope_period(3500, 1, 2000000);
    assert_eq!((p[0].address, p[0].value), (addr::COARSE_TUNE, 0));
    assert_eq!((p[1].address, p[1].value), (addr::FINE_TUNE, 2));
}

#[test]
fn envelope_period_saturates_divider() {
    // The divider is held at u32::MAX: coarse 0xFF, fine 0xFF.
    let p = envelope_period(1, u32::MAX, u32::MAX);
    assert_eq!(p[0].value, 0xFF);
    assert_eq!(p[1].value, 0xFF);
}

#[test]
fn envelope_shape_every_variant() {
    let cases = [
        (ShapeType::OneShotSaw, 0x4),
        (ShapeType::RampDown, 0x0),
        (ShapeType::RampUp, 0xD),
        (ShapeType::RepeatedSaw, 0x8),
        (ShapeType::RepeatedTriangle, 0xA),
    ];
    for (shape_type, value) in cases {
        let packet = shape(&shape_type);
        assert_eq!(packet.address, addr::SHAPE_CYCLE);
        assert_eq!(packet.value, value);
    }
}

#[test]
fn shape_cycle_flags() {
    let mut s = ShapeCycle(0);
    s.set_hold(true);
    s.set_cont(true);
    assert_eq!(s.0, 0x9);
    assert!(s.hold() && s.cont() && !s.attack() && !s.alternate());
    s.set_hold(false);
    s.set_attack(true);
    s.set_alternate(true);
    assert_eq!(s.0, 0xE);
}

#[test]
fn amplitude_fixed_keeps_low_four_bits() {
    assert_eq!(amplitude_set(&Channel::B, &Mode::Fixed, 15).value, 15);
    assert_eq!(amplitude_set(&Channel::C, &Mode::Fixed, 0x2B).value, 0xB);
    assert_eq!(amplitude_set(&Channel::B, &Mode::Fixed, 0).address, addr::AMPLITUDE_CHANNEL_B);
    assert_eq!(amplitude_set(&Channel::C, &Mode::Fixed, 0).address, addr::AMPLITUDE_CHANNEL_C);
}

#[test]
fn amplitude_variable_ignores_level() {
    for level in 0..16u8 {
        assert_eq!(amplitude_set(&Channel::C, &Mode::Variable, level).value, 0x10);
    }
}

#[test]
fn mixer_clears_input_enable_bits() {
    let mut settings = Settings(0);
    settings.set_input_enable_a(true);
    settings.set_input_enable_b(true);
    settings.set_noise_channel_c(true);
    assert_eq!(settings.0, 0xE0);
    let packet = mixer_set(&settings);
    assert_eq!(packet.value, 0x20);
    // The stored settings are not changed by encoding.
    assert!(settings.input_enable_a() && settings.input_enable_b());
    assert_eq!(mixer_set(&Settings(0xFF)).value, 0x3F);
}

#[test]
fn mixer_flag_accessors() {
    let mut s = Settings(0xFF);
    s.set_tone_channel_a(false);
    s.set_tone_channel_b(false);
    s.set_tone_channel_c(false);
    assert_eq!(s.0, 0xF8);
    assert!(!s.tone_channel_b() && s.noise_channel_a() && s.noise_channel_b());
    s.set_noise_channel_a(false);
    s.set_noise_channel_b(false);
    assert_eq!(s.0, 0xE0);
}

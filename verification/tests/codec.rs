use gvm_led::protocol::{checksum, encode, encode_batch, Command, PowerState};
use gvm_led::settings::LightMode;

#[test]
fn golden_vector_power_on() {
    let frame = encode(Command::Power(PowerState::On));
    assert_eq!(
        frame,
        vec![0x4c, 0x54, 0x09, 0x00, 0x30, 0x57, 0x00, 0x00, 0x01, 0x01, 0x22, 0xdf]
    );
}

#[test]
fn golden_vector_power_off() {
    let frame = encode(Command::Power(PowerState::Off));
    assert_eq!(
        frame,
        vec![0x4c, 0x54, 0x09, 0x00, 0x30, 0x57, 0x00, 0x00, 0x01, 0x00, 0x32, 0xfe]
    );
}

#[test]
fn golden_vector_init_session_checksum() {
    // The observed init/session frame 4C 54 09 00 00 53 00 00 01 00 94 74
    // carries the same checksum algorithm over its header bytes.
    let header = vec![0x4c, 0x54, 0x09, 0x00, 0x00, 0x53, 0x00, 0x00, 0x01, 0x00];
    assert_eq!(checksum(&header), 0x9474);
}

#[test]
fn checksum_of_empty_is_zero() {
    assert_eq!(checksum(&Vec::new()), 0);
}

#[test]
fn encode_mode_commands() {
    assert_eq!(
        encode(Command::Mode(LightMode::Hsi)),
        vec![0x4c, 0x54, 0x09, 0x00, 0x30, 0x57, 0x00, 0x01, 0x01, 0x01, 0x15, 0xef]
    );
    assert_eq!(
        encode(Command::Mode(LightMode::Cct)),
        vec![0x4c, 0x54, 0x09, 0x00, 0x30, 0x57, 0x00, 0x01, 0x01, 0x00, 0x05, 0xce]
    );
}

#[test]
fn encode_scalar_commands() {
    assert_eq!(
        encode(Command::Intensity(50)),
        vec![0x4c, 0x54, 0x09, 0x00, 0x30, 0x57, 0x00, 0x02, 0x01, 0x32, 0x4a, 0x8f]
    );
    assert_eq!(
        encode(Command::ColorTemperature(9)),
        vec![0x4c, 0x54, 0x09, 0x00, 0x30, 0x57, 0x00, 0x03, 0x01, 0x09, 0xfa, 0x87]
    );
    assert_eq!(
        encode(Command::Hue(40)),
        vec![0x4c, 0x54, 0x09, 0x00, 0x30, 0x57, 0x00, 0x04, 0x01, 0x28, 0x4b, 0x54]
    );
    assert_eq!(
        encode(Command::Saturation(100)),
        vec![0x4c, 0x54, 0x09, 0x00, 0x30, 0x57, 0x00, 0x05, 0x01, 0x64, 0xf5, 0x2c]
    );
}

#[test]
fn every_frame_is_twelve_bytes_with_magic() {
    let commands = vec![
        Command::Power(PowerState::On),
        Command::Power(PowerState::Off),
        Command::Mode(LightMode::Hsi),
        Command::Mode(LightMode::Cct),
        Command::Hue(0),
        Command::Saturation(0),
        Command::Intensity(0),
        Command::ColorTemperature(24),
    ];
    for c in commands {
        let frame = encode(c);
        assert_eq!(frame.len(), 12);
        assert_eq!(&frame[0..2], &[0x4c, 0x54]);
        assert_eq!(&frame[2..4], &[0x09, 0x00]);
    }
}

#[test]
fn batch_encoding_keeps_order() {
    let commands = vec![
        Command::Power(PowerState::On),
        Command::Hue(40),
        Command::Mode(LightMode::Hsi),
    ];
    let frames = encode_batch(&commands);
    assert_eq!(frames.len(), 3);
    assert_eq!(frames[0], encode(Command::Power(PowerState::On)));
    assert_eq!(frames[1], encode(Command::Hue(40)));
    assert_eq!(frames[2], encode(Command::Mode(LightMode::Hsi)));
}

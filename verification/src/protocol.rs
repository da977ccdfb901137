//! Binary frame codec: every logical command is encoded as a fixed-layout,
//! checksummed frame written to the control characteristic.
//!
//! Frame layout: the two magic bytes `4C 54` ("LT"), a little-endian length
//! field covering the region that follows its low byte, the command family
//! bytes, the command id, a one-byte payload length, the single data byte,
//! and a two-byte big-endian CRC trailer over everything before it.

use vstd::prelude::*;

use crate::settings::LightMode;

verus! {

/// Whether a power command switches the fixture on or off.
#[derive(Clone, Copy, PartialEq, Eq, Structural, Debug)]
pub enum PowerState {
    On,
    Off,
}

/// The closed set of logical operations the wire protocol can express.
/// Each command carries at most one scalar payload byte.
#[derive(Clone, Copy, PartialEq, Eq, Structural, Debug)]
pub enum Command {
    Power(PowerState),
    Mode(LightMode),
    /// HSI family: hue, range [0, 0x53)
    Hue(u8),
    /// HSI family: saturation, range [0, 100]
    Saturation(u8),
    /// HSI family: intensity, range [0, 100]
    Intensity(u8),
    /// CCT family: temperature step, range [0, 24]
    ColorTemperature(u8),
}

/// The command-id byte that selects the target setting within the family.
pub open spec fn command_id(c: Command) -> u8 {
    match c {
        Command::Power(_) => 0x00,
        Command::Mode(_) => 0x01,
        Command::Intensity(_) => 0x02,
        Command::ColorTemperature(_) => 0x03,
        Command::Hue(_) => 0x04,
        Command::Saturation(_) => 0x05,
    }
}

/// The single data byte carried by a command.
pub open spec fn command_value(c: Command) -> u8 {
    match c {
        Command::Power(p) => if p is On { 1 } else { 0 },
        Command::Mode(m) => if m is Hsi { 1 } else { 0 },
        Command::Hue(v) => v,
        Command::Saturation(v) => v,
        Command::Intensity(v) => v,
        Command::ColorTemperature(v) => v,
    }
}

/// One shift step of the CRC-16 register: polynomial 0x1021, no reflection.
pub open spec fn crc16_shift(crc: u16) -> u16 {
    if crc & 0x8000 != 0 {
        (crc << 1) ^ 0x1021
    } else {
        crc << 1
    }
}

/// `n` successive shift steps.
pub open spec fn crc16_shifts(crc: u16, n: nat) -> u16
    decreases n,
{
    if n == 0 {
        crc
    } else {
        crc16_shift(crc16_shifts(crc, (n - 1) as nat))
    }
}

/// Folding one byte into the CRC register: xor into the high byte, then
/// eight shift steps.
pub open spec fn crc16_update(crc: u16, byte: u8) -> u16 {
    crc16_shifts(crc ^ ((byte as u16) << 8), 8)
}

/// CRC-16 of a byte sequence, initial value 0.
pub open spec fn crc16(data: Seq<u8>) -> u16
    decreases data.len(),
{
    if data.len() == 0 {
        0
    } else {
        crc16_update(crc16(data.drop_last()), data.last())
    }
}

/// The frame bytes before the checksum trailer.
pub open spec fn frame_header(c: Command) -> Seq<u8> {
    seq![0x4c, 0x54, 0x09, 0x00, 0x30, 0x57, 0x00, command_id(c), 0x01, command_value(c)]
}

/// The complete wire frame for a command: header plus big-endian CRC trailer.
pub open spec fn spec_frame(c: Command) -> Seq<u8> {
    frame_header(c) + seq![
        (crc16(frame_header(c)) >> 8) as u8,
        (crc16(frame_header(c)) & 0xff) as u8,
    ]
}

fn checksum_update(crc: u16, byte: u8) -> (r: u16)
    ensures
        r == crc16_update(crc, byte),
{
    let mut c: u16 = crc ^ ((byte as u16) << 8);
    let mut k: usize = 0;
    while k < 8
        invariant
            k <= 8,
            c == crc16_shifts(crc ^ ((byte as u16) << 8), k as nat),
        decreases 8 - k,
    {
        if c & 0x8000 != 0 {
            c = (c << 1) ^ 0x1021;
        } else {
            c = c << 1;
        }
        k = k + 1;
    }
    c
}

/// CRC-16 of the given bytes, as carried in a frame trailer.
pub fn checksum(data: &Vec<u8>) -> (crc: u16)
    ensures
        crc == crc16(data@),
{
    let mut crc: u16 = 0;
    let mut i: usize = 0;
    while i < data.len()
        invariant
            i <= data@.len(),
            crc == crc16(data@.take(i as int)),
        decreases data@.len() - i,
    {
        let b = data[i];
        proof {
            assert(data@.take(i + 1).drop_last() =~= data@.take(i as int));
            assert(data@.take(i + 1).last() == b);
        }
        crc = checksum_update(crc, b);
        i = i + 1;
    }
    proof {
        assert(data@.take(data@.len() as int) =~= data@);
    }
    crc
}

/// Encode a logical command as its complete wire frame. Total and
/// deterministic: every command value has exactly one frame.
pub fn encode(command: Command) -> (frame: Vec<u8>)
    ensures
        frame@ == spec_frame(command),
{
    let mut frame: Vec<u8> = Vec::new();
    frame.push(0x4c);
    frame.push(0x54);
    frame.push(0x09);
    frame.push(0x00);
    frame.push(0x30);
    frame.push(0x57);
    frame.push(0x00);
    let id: u8 = match command {
        Command::Power(_) => 0x00,
        Command::Mode(_) => 0x01,
        Command::Intensity(_) => 0x02,
        Command::ColorTemperature(_) => 0x03,
        Command::Hue(_) => 0x04,
        Command::Saturation(_) => 0x05,
    };
    let value: u8 = match command {
        Command::Power(p) => match p {
            PowerState::On => 1,
            PowerState::Off => 0,
        },
        Command::Mode(m) => match m {
            LightMode::Hsi => 1,
            LightMode::Cct => 0,
        },
        Command::Hue(v) => v,
        Command::Saturation(v) => v,
        Command::Intensity(v) => v,
        Command::ColorTemperature(v) => v,
    };
    frame.push(id);
    frame.push(0x01);
    frame.push(value);
    proof {
        assert(frame@ =~= frame_header(command));
    }
    let crc = checksum(&frame);
    proof {
        assert(crc >> 8 < 256) by (bit_vector);
        assert(crc & 0xff < 256) by (bit_vector);
    }
    frame.push((crc >> 8) as u8);
    frame.push((crc & 0xff) as u8);
    proof {
        assert(frame@ =~= spec_frame(command));
    }
    frame
}

/// The views of a batch of encoded frames.
pub open spec fn frame_views(frames: Seq<Vec<u8>>) -> Seq<Seq<u8>> {
    frames.map_values(|f: Vec<u8>| f@)
}

/// The wire frames of a batch of commands, in order.
pub open spec fn frames_of(commands: Seq<Command>) -> Seq<Seq<u8>> {
    commands.map_values(|c: Command| spec_frame(c))
}

/// Encode a command batch, preserving its order frame for frame.
pub fn encode_batch(commands: &Vec<Command>) -> (frames: Vec<Vec<u8>>)
    ensures
        frame_views(frames@) == frames_of(commands@),
{
    let mut frames: Vec<Vec<u8>> = Vec::new();
    let mut i: usize = 0;
    while i < commands.len()
        invariant
            i <= commands@.len(),
            frames@.len() == i,
            frame_views(frames@) == frames_of(commands@.take(i as int)),
        decreases commands@.len() - i,
    {
        let frame = encode(commands[i]);
        let ghost pre = frames@;
        frames.push(frame);
        proof {
            assert forall|j: int| 0 <= j < i + 1 implies frame_views(frames@)[j] == frames_of(
                commands@.take(i + 1),
            )[j] by {
                if j < i {
                    assert(frames@[j] == pre[j]);
                    assert(frame_views(pre)[j] == frames_of(commands@.take(i as int))[j]);
                } else {
                    assert(frames@[j] == frame);
                }
            }
            assert(frame_views(frames@) =~= frames_of(commands@.take(i + 1)));
        }
        i = i + 1;
    }
    proof {
        assert(commands@.take(commands@.len() as int) =~= commands@);
    }
    frames
}

} // verus!

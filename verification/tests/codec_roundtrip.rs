//! Wire-format checks: every variant survives the encode/decode round
//! trip, decoding is self-delimited inside a longer stream, and malformed
//! input is rejected.

use haptic_engine::codec::{decode_command, encode_command};
use haptic_engine::protocol::{EngineCommand, HapticCommand, MpeData, strip_timestamp};

fn mpe(pressure: i64, bend: i64, timbre: i64) -> MpeData {
    MpeData { pressure_q16: pressure, pitch_bend_q16: bend, timbre_q16: timbre }
}

#[test]
fn note_on_round_trip() {
    let cmd = HapticCommand::NoteOn {
        ts_us: 123_456_789_012,
        note: 60,
        velocity: 40,
        channel: 3,
        mpe: mpe(65536, -65536, 32768),
    };
    let bytes = encode_command(&cmd);
    assert_eq!(bytes.len(), 36);
    assert_eq!(bytes[0], 1);
    assert_eq!(decode_command(&bytes, 0), Some((cmd, 36)));
}

#[test]
fn note_off_round_trip() {
    let cmd = HapticCommand::NoteOff { ts_us: 42, note: 127, channel: 15 };
    let bytes = encode_command(&cmd);
    assert_eq!(bytes.len(), 11);
    assert_eq!(bytes[0], 2);
    assert_eq!(decode_command(&bytes, 0), Some((cmd, 11)));
}

#[test]
fn mpe_update_round_trip() {
    let cmd = HapticCommand::MpeUpdate {
        ts_us: u64::MAX,
        channel: 7,
        mpe: mpe(0, 65536, 0),
    };
    let bytes = encode_command(&cmd);
    assert_eq!(bytes.len(), 34);
    assert_eq!(bytes[0], 3);
    assert_eq!(decode_command(&bytes, 0), Some((cmd, 34)));
}

#[test]
fn panic_round_trip() {
    let cmd = HapticCommand::Panic;
    let bytes = encode_command(&cmd);
    assert_eq!(bytes.len(), 1);
    assert_eq!(bytes[0], 4);
    assert_eq!(decode_command(&bytes, 0), Some((cmd, 1)));
}

#[test]
fn decoding_is_self_delimited_in_a_stream() {
    let first = HapticCommand::NoteOn {
        ts_us: 1,
        note: 64,
        velocity: 100,
        channel: 0,
        mpe: mpe(100, 0, 32768),
    };
    let second = HapticCommand::Panic;
    let third = HapticCommand::NoteOff { ts_us: 2, note: 64, channel: 0 };
    let mut stream = encode_command(&first);
    stream.extend(encode_command(&second));
    stream.extend(encode_command(&third));

    let (c1, used1) = decode_command(&stream, 0).unwrap();
    assert_eq!(c1, first);
    let (c2, used2) = decode_command(&stream, used1).unwrap();
    assert_eq!(c2, second);
    let (c3, used3) = decode_command(&stream, used1 + used2).unwrap();
    assert_eq!(c3, third);
    assert_eq!(used1 + used2 + used3, stream.len());
}

#[test]
fn unknown_tag_is_rejected() {
    let bytes = vec![9u8, 0, 0, 0, 0, 0, 0, 0, 0, 0, 0];
    assert_eq!(decode_command(&bytes, 0), None);
    assert_eq!(decode_command(&Vec::new(), 0), None);
}

#[test]
fn truncated_command_is_rejected() {
    let cmd = HapticCommand::NoteOn {
        ts_us: 5,
        note: 60,
        velocity: 40,
        channel: 0,
        mpe: mpe(0, 0, 32768),
    };
    let bytes = encode_command(&cmd);
    let short = bytes[..bytes.len() - 1].to_vec();
    assert_eq!(decode_command(&short, 0), None);
}

#[test]
fn out_of_range_expression_is_rejected() {
    let cmd = HapticCommand::MpeUpdate { ts_us: 0, channel: 0, mpe: mpe(65536, 0, 32768) };
    let mut bytes = encode_command(&cmd);
    // Pressure sits in bytes 10..18; force it above one.
    bytes[10] = 0xff;
    bytes[11] = 0xff;
    assert_eq!(decode_command(&bytes, 0), None);
}

#[test]
fn out_of_range_note_is_rejected() {
    let cmd = HapticCommand::NoteOn {
        ts_us: 0,
        note: 60,
        velocity: 40,
        channel: 0,
        mpe: mpe(0, 0, 32768),
    };
    let mut bytes = encode_command(&cmd);
    // The note byte follows the tag and timestamp.
    bytes[9] = 200;
    assert_eq!(decode_command(&bytes, 0), None);
}

#[test]
fn strip_timestamp_keeps_the_payload() {
    let m = mpe(11, -22, 33);
    let on = HapticCommand::NoteOn { ts_us: 99, note: 1, velocity: 2, channel: 3, mpe: m };
    assert_eq!(
        strip_timestamp(on),
        EngineCommand::NoteOn { note: 1, velocity: 2, channel: 3, mpe: m }
    );
    assert_eq!(
        strip_timestamp(HapticCommand::NoteOff { ts_us: 9, note: 4, channel: 5 }),
        EngineCommand::NoteOff { note: 4, channel: 5 }
    );
    assert_eq!(
        strip_timestamp(HapticCommand::MpeUpdate { ts_us: 9, channel: 6, mpe: m }),
        EngineCommand::MpeUpdate { channel: 6, mpe: m }
    );
    assert_eq!(strip_timestamp(HapticCommand::Panic), EngineCommand::Panic);
}

#[test]
fn default_expression_data() {
    let d = MpeData::default();
    assert_eq!(d.pressure_q16, 0);
    assert_eq!(d.pitch_bend_q16, 0);
    assert_eq!(d.timbre_q16, 32768);
}

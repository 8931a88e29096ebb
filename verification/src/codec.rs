//! The wire format: a self-delimited binary encoding of `HapticCommand`.
//!
//! Integers are little-endian and fixed-width; the leading byte is the
//! variant tag.  Expression values travel as unsigned 64-bit words, the
//! pitch bend biased by `FX_ONE` so that the wire carries no negative
//! numbers.  Decoding validates every range, so whatever it accepts
//! satisfies the command invariant, and decoding is the exact inverse of
//! encoding.

use vstd::prelude::*;
use crate::protocol::{HapticCommand, MpeData};

verus! {

/// The eight little-endian bytes of a 64-bit word.
pub open spec fn spec_u64_le(v: u64) -> Seq<u8> {
    seq![
        (v & 0xff) as u8,
        ((v >> 8) & 0xff) as u8,
        ((v >> 16) & 0xff) as u8,
        ((v >> 24) & 0xff) as u8,
        ((v >> 32) & 0xff) as u8,
        ((v >> 40) & 0xff) as u8,
        ((v >> 48) & 0xff) as u8,
        ((v >> 56) & 0xff) as u8,
    ]
}

/// The 64-bit word with the given little-endian bytes.
pub open spec fn spec_u64_from_le(
    b0: u8, b1: u8, b2: u8, b3: u8, b4: u8, b5: u8, b6: u8, b7: u8,
) -> u64 {
    (b0 as u64)
        | ((b1 as u64) << 8)
        | ((b2 as u64) << 16)
        | ((b3 as u64) << 24)
        | ((b4 as u64) << 32)
        | ((b5 as u64) << 40)
        | ((b6 as u64) << 48)
        | ((b7 as u64) << 56)
}

/// The word read at `pos` in a byte sequence.
pub open spec fn spec_read_u64(s: Seq<u8>, pos: int) -> u64 {
    spec_u64_from_le(
        s[pos], s[pos + 1], s[pos + 2], s[pos + 3],
        s[pos + 4], s[pos + 5], s[pos + 6], s[pos + 7],
    )
}

/// Reassembling a word from its own little-endian bytes gives it back.
proof fn lemma_u64_le_round_trip(v: u64)
    ensures
        spec_u64_from_le(
            (v & 0xff) as u8,
            ((v >> 8) & 0xff) as u8,
            ((v >> 16) & 0xff) as u8,
            ((v >> 24) & 0xff) as u8,
            ((v >> 32) & 0xff) as u8,
            ((v >> 40) & 0xff) as u8,
            ((v >> 48) & 0xff) as u8,
            ((v >> 56) & 0xff) as u8,
        ) == v,
{
    assert(((v & 0xff) as u8 as u64)
        | ((((v >> 8) & 0xff) as u8 as u64) << 8)
        | ((((v >> 16) & 0xff) as u8 as u64) << 16)
        | ((((v >> 24) & 0xff) as u8 as u64) << 24)
        | ((((v >> 32) & 0xff) as u8 as u64) << 32)
        | ((((v >> 40) & 0xff) as u8 as u64) << 40)
        | ((((v >> 48) & 0xff) as u8 as u64) << 48)
        | ((((v >> 56) & 0xff) as u8 as u64) << 56) == v) by (bit_vector);
}

/// Append the eight little-endian bytes of `v`.
fn push_u64_le(buf: &mut Vec<u8>, v: u64)
    ensures
        final(buf)@ == old(buf)@ + spec_u64_le(v),
{
    proof {
        assert(v & 0xff < 256 && (v >> 8) & 0xff < 256 && (v >> 16) & 0xff < 256
            && (v >> 24) & 0xff < 256 && (v >> 32) & 0xff < 256 && (v >> 40) & 0xff < 256
            && (v >> 48) & 0xff < 256 && (v >> 56) & 0xff < 256) by (bit_vector);
    }
    buf.push((v & 0xff) as u8);
    buf.push(((v >> 8) & 0xff) as u8);
    buf.push(((v >> 16) & 0xff) as u8);
    buf.push(((v >> 24) & 0xff) as u8);
    buf.push(((v >> 32) & 0xff) as u8);
    buf.push(((v >> 40) & 0xff) as u8);
    buf.push(((v >> 48) & 0xff) as u8);
    buf.push(((v >> 56) & 0xff) as u8);
    proof {
        assert(buf@ =~= old(buf)@ + spec_u64_le(v));
    }
}

/// Read the word at `pos`.
fn read_u64_le(bytes: &Vec<u8>, pos: usize) -> (r: u64)
    requires
        pos + 8 <= bytes.len(),
    ensures
        r == spec_read_u64(bytes@, pos as int),
{
    (bytes[pos] as u64)
        | ((bytes[pos + 1] as u64) << 8)
        | ((bytes[pos + 2] as u64) << 16)
        | ((bytes[pos + 3] as u64) << 24)
        | ((bytes[pos + 4] as u64) << 32)
        | ((bytes[pos + 5] as u64) << 40)
        | ((bytes[pos + 6] as u64) << 48)
        | ((bytes[pos + 7] as u64) << 56)
}

/// Wire form of the three expression values: pressure, biased pitch bend,
/// timbre, each one word.
pub open spec fn spec_encode_mpe(m: MpeData) -> Seq<u8> {
    spec_u64_le(m.pressure_q16 as u64)
        + spec_u64_le((m.pitch_bend_q16 + 65536) as u64)
        + spec_u64_le(m.timbre_q16 as u64)
}

/// Wire form of a command: a tag byte, then the timestamp and the fields of
/// its variant.
pub open spec fn spec_encode(cmd: HapticCommand) -> Seq<u8> {
    match cmd {
        HapticCommand::NoteOn { ts_us, note, velocity, channel, mpe } => {
            seq![1u8] + spec_u64_le(ts_us) + seq![note, velocity, channel]
                + spec_encode_mpe(mpe)
        },
        HapticCommand::NoteOff { ts_us, note, channel } => {
            seq![2u8] + spec_u64_le(ts_us) + seq![note, channel]
        },
        HapticCommand::MpeUpdate { ts_us, channel, mpe } => {
            seq![3u8] + spec_u64_le(ts_us) + seq![channel] + spec_encode_mpe(mpe)
        },
        HapticCommand::Panic => seq![4u8],
    }
}

/// The expression data whose wire form starts at `pos`, if its three words
/// are in range.
pub open spec fn spec_parse_mpe(s: Seq<u8>, pos: int) -> Option<MpeData> {
    let pr = spec_read_u64(s, pos);
    let pb = spec_read_u64(s, pos + 8);
    let tb = spec_read_u64(s, pos + 16);
    if pr <= 65536 && pb <= 131072 && tb <= 65536 {
        Some(MpeData {
            pressure_q16: pr as i64,
            pitch_bend_q16: (pb - 65536) as i64,
            timbre_q16: tb as i64,
        })
    } else {
        None
    }
}

/// The command whose wire form is a prefix of `s`, with the number of bytes
/// it occupies; `None` when no well-formed command starts at the front.
pub open spec fn spec_parse(s: Seq<u8>) -> Option<(HapticCommand, int)> {
    if s.len() < 1 {
        None
    } else if s[0] == 1 {
        if s.len() < 36 {
            None
        } else if !(s[9] < 128 && s[10] < 128) {
            None
        } else {
            match spec_parse_mpe(s, 12) {
                Some(mpe) => Some((
                    HapticCommand::NoteOn {
                        ts_us: spec_read_u64(s, 1),
                        note: s[9],
                        velocity: s[10],
                        channel: s[11],
                        mpe,
                    },
                    36,
                )),
                None => None,
            }
        }
    } else if s[0] == 2 {
        if s.len() < 11 {
            None
        } else {
            Some((
                HapticCommand::NoteOff {
                    ts_us: spec_read_u64(s, 1),
                    note: s[9],
                    channel: s[10],
                },
                11,
            ))
        }
    } else if s[0] == 3 {
        if s.len() < 34 {
            None
        } else {
            match spec_parse_mpe(s, 10) {
                Some(mpe) => Some((
                    HapticCommand::MpeUpdate {
                        ts_us: spec_read_u64(s, 1),
                        channel: s[9],
                        mpe,
                    },
                    34,
                )),
                None => None,
            }
        }
    } else if s[0] == 4 {
        Some((HapticCommand::Panic, 1))
    } else {
        None
    }
}

/// Serialize a well-formed command.
pub fn encode_command(cmd: &HapticCommand) -> (r: Vec<u8>)
    requires
        cmd.inv(),
    ensures
        r@ == spec_encode(*cmd),
{
    let mut buf: Vec<u8> = Vec::new();
    match cmd {
        HapticCommand::NoteOn { ts_us, note, velocity, channel, mpe } => {
            buf.push(1);
            push_u64_le(&mut buf, *ts_us);
            buf.push(*note);
            buf.push(*velocity);
            buf.push(*channel);
            push_u64_le(&mut buf, mpe.pressure_q16 as u64);
            push_u64_le(&mut buf, (mpe.pitch_bend_q16 + 65536) as u64);
            push_u64_le(&mut buf, mpe.timbre_q16 as u64);
            proof {
                assert(buf@ =~= spec_encode(*cmd));
            }
        },
        HapticCommand::NoteOff { ts_us, note, channel } => {
            buf.push(2);
            push_u64_le(&mut buf, *ts_us);
            buf.push(*note);
            buf.push(*channel);
            proof {
                assert(buf@ =~= spec_encode(*cmd));
            }
        },
        HapticCommand::MpeUpdate { ts_us, channel, mpe } => {
            buf.push(3);
            push_u64_le(&mut buf, *ts_us);
            buf.push(*channel);
            push_u64_le(&mut buf, mpe.pressure_q16 as u64);
            push_u64_le(&mut buf, (mpe.pitch_bend_q16 + 65536) as u64);
            push_u64_le(&mut buf, mpe.timbre_q16 as u64);
            proof {
                assert(buf@ =~= spec_encode(*cmd));
            }
        },
        HapticCommand::Panic => {
            buf.push(4);
            proof {
                assert(buf@ =~= spec_encode(*cmd));
            }
        },
    }
    buf
}

/// Deserialize the command starting at `start`: exactly what `spec_parse`
/// yields on the remaining bytes, and always a well-formed command.
pub fn decode_command(bytes: &Vec<u8>, start: usize) -> (r: Option<(HapticCommand, usize)>)
    requires
        start <= bytes.len(),
    ensures
        match r {
            Some((cmd, used)) => {
                &&& spec_parse(bytes@.skip(start as int)) == Some((cmd, used as int))
                &&& cmd.inv()
                &&& 1 <= used <= bytes.len() - start
            },
            None => spec_parse(bytes@.skip(start as int)) is None,
        },
{
    let ghost s = bytes@.skip(start as int);
    let n: usize = bytes.len() - start;
    if n < 1 {
        return None;
    }
    let tag: u8 = bytes[start];
    assert(tag == s[0]);
    if tag == 1 {
        if n < 36 {
            return None;
        }
        let ts_us: u64 = read_u64_le(bytes, start + 1);
        let note: u8 = bytes[start + 9];
        let velocity: u8 = bytes[start + 10];
        let channel: u8 = bytes[start + 11];
        if !(note < 128 && velocity < 128) {
            return None;
        }
        let pr: u64 = read_u64_le(bytes, start + 12);
        let pb: u64 = read_u64_le(bytes, start + 20);
        let tb: u64 = read_u64_le(bytes, start + 28);
        proof {
            assert(spec_read_u64(bytes@, start as int + 1) == spec_read_u64(s, 1));
            assert(spec_read_u64(bytes@, start as int + 12) == spec_read_u64(s, 12));
            assert(spec_read_u64(bytes@, start as int + 20) == spec_read_u64(s, 20));
            assert(spec_read_u64(bytes@, start as int + 28) == spec_read_u64(s, 28));
        }
        if !(pr <= 65536 && pb <= 131072 && tb <= 65536) {
            return None;
        }
        let mpe = MpeData {
            pressure_q16: pr as i64,
            pitch_bend_q16: pb as i64 - 65536,
            timbre_q16: tb as i64,
        };
        Some((HapticCommand::NoteOn { ts_us, note, velocity, channel, mpe }, 36))
    } else if tag == 2 {
        if n < 11 {
            return None;
        }
        let ts_us: u64 = read_u64_le(bytes, start + 1);
        let note: u8 = bytes[start + 9];
        let channel: u8 = bytes[start + 10];
        proof {
            assert(spec_read_u64(bytes@, start as int + 1) == spec_read_u64(s, 1));
        }
        Some((HapticCommand::NoteOff { ts_us, note, channel }, 11))
    } else if tag == 3 {
        if n < 34 {
            return None;
        }
        let ts_us: u64 = read_u64_le(bytes, start + 1);
        let channel: u8 = bytes[start + 9];
        let pr: u64 = read_u64_le(bytes, start + 10);
        let pb: u64 = read_u64_le(bytes, start + 18);
        let tb: u64 = read_u64_le(bytes, start + 26);
        proof {
            assert(spec_read_u64(bytes@, start as int + 1) == spec_read_u64(s, 1));
            assert(spec_read_u64(bytes@, start as int + 10) == spec_read_u64(s, 10));
            assert(spec_read_u64(bytes@, start as int + 18) == spec_read_u64(s, 18));
            assert(spec_read_u64(bytes@, start as int + 26) == spec_read_u64(s, 26));
        }
        if !(pr <= 65536 && pb <= 131072 && tb <= 65536) {
            return None;
        }
        let mpe = MpeData {
            pressure_q16: pr as i64,
            pitch_bend_q16: pb as i64 - 65536,
            timbre_q16: tb as i64,
        };
        Some((HapticCommand::MpeUpdate { ts_us, channel, mpe }, 34))
    } else if tag == 4 {
        Some((HapticCommand::Panic, 1))
    } else {
        None
    }
}

/// Decoding is the exact inverse of encoding: the wire form of any
/// well-formed command, whatever follows it, parses back to that command
/// and consumes exactly its own bytes.
pub proof fn lemma_codec_round_trip(cmd: HapticCommand, rest: Seq<u8>)
    requires
        cmd.inv(),
    ensures
        spec_parse(spec_encode(cmd) + rest)
            == Some((cmd, spec_encode(cmd).len() as int)),
{
    let s = spec_encode(cmd) + rest;
    match cmd {
        HapticCommand::NoteOn { ts_us, note, velocity, channel, mpe } => {
            lemma_u64_le_round_trip(ts_us);
            lemma_u64_le_round_trip(mpe.pressure_q16 as u64);
            lemma_u64_le_round_trip((mpe.pitch_bend_q16 + 65536) as u64);
            lemma_u64_le_round_trip(mpe.timbre_q16 as u64);
            assert(spec_read_u64(s, 1) == ts_us);
            assert(spec_read_u64(s, 12) == mpe.pressure_q16 as u64);
            assert(spec_read_u64(s, 20) == (mpe.pitch_bend_q16 + 65536) as u64);
            assert(spec_read_u64(s, 28) == mpe.timbre_q16 as u64);
            assert(spec_parse_mpe(s, 12) == Some(mpe));
        },
        HapticCommand::NoteOff { ts_us, note, channel } => {
            lemma_u64_le_round_trip(ts_us);
            assert(spec_read_u64(s, 1) == ts_us);
        },
        HapticCommand::MpeUpdate { ts_us, channel, mpe } => {
            lemma_u64_le_round_trip(ts_us);
            lemma_u64_le_round_trip(mpe.pressure_q16 as u64);
            lemma_u64_le_round_trip((mpe.pitch_bend_q16 + 65536) as u64);
            lemma_u64_le_round_trip(mpe.timbre_q16 as u64);
            assert(spec_read_u64(s, 1) == ts_us);
            assert(spec_read_u64(s, 10) == mpe.pressure_q16 as u64);
            assert(spec_read_u64(s, 18) == (mpe.pitch_bend_q16 + 65536) as u64);
            assert(spec_read_u64(s, 26) == mpe.timbre_q16 as u64);
            assert(spec_parse_mpe(s, 10) == Some(mpe));
        },
        HapticCommand::Panic => {
            assert(s[0] == 4);
        },
    }
}

} // verus!

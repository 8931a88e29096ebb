//! Wire-level and engine-internal command types.
//!
//! `HapticCommand` is the serialized union the instrument sends; the engine
//! consumes `EngineCommand`, the same variants with the timestamp stripped.
//! Continuous controller values are Q16 fixed point: `FX_ONE` is 1.0.

use vstd::prelude::*;
use crate::fixed::{smooth_toward, spec_smooth_toward, FX_ONE};

verus! {

/// Per-note continuous expression: pressure in `[0, 1]`, pitch bend in
/// `[-1, 1]`, timbre in `[0, 1]`, all Q16.
#[derive(Clone, Copy, PartialEq, Eq, Structural, Debug)]
pub struct MpeData {
    pub pressure_q16: i64,
    pub pitch_bend_q16: i64,
    pub timbre_q16: i64,
}

impl MpeData {
    /// Range invariant of the three controller values.
    pub open spec fn inv(&self) -> bool {
        &&& 0 <= self.pressure_q16 <= FX_ONE
        &&& -FX_ONE <= self.pitch_bend_q16 <= FX_ONE
        &&& 0 <= self.timbre_q16 <= FX_ONE
    }

    /// Check the range invariant at run time.
    pub fn validate(&self) -> (b: bool)
        ensures
            b == self.inv(),
    {
        0 <= self.pressure_q16 && self.pressure_q16 <= FX_ONE
            && -FX_ONE <= self.pitch_bend_q16 && self.pitch_bend_q16 <= FX_ONE
            && 0 <= self.timbre_q16 && self.timbre_q16 <= FX_ONE
    }

    /// The default value: no pressure, centred pitch bend, timbre at half.
    pub open spec fn spec_default() -> MpeData {
        MpeData { pressure_q16: 0, pitch_bend_q16: 0, timbre_q16: 32768 }
    }

    /// One sample of the one-pole expression follower: each field of the
    /// current value moves toward the target's field.
    pub open spec fn spec_smoothed(self, target: MpeData, sr: int) -> MpeData {
        MpeData {
            pressure_q16: spec_smooth_toward(
                self.pressure_q16 as int, target.pressure_q16 as int, sr) as i64,
            pitch_bend_q16: spec_smooth_toward(
                self.pitch_bend_q16 as int, target.pitch_bend_q16 as int, sr) as i64,
            timbre_q16: spec_smooth_toward(
                self.timbre_q16 as int, target.timbre_q16 as int, sr) as i64,
        }
    }

    /// Advance the expression follower one sample toward `target`.
    pub fn smoothed(&self, target: &MpeData, sr: u32) -> (r: MpeData)
        requires
            self.inv(),
            target.inv(),
            1 <= sr <= 0x10_0000,
        ensures
            r == self.spec_smoothed(*target, sr as int),
            r.inv(),
    {
        MpeData {
            pressure_q16: smooth_toward(self.pressure_q16, target.pressure_q16, sr),
            pitch_bend_q16: smooth_toward(self.pitch_bend_q16, target.pitch_bend_q16, sr),
            timbre_q16: smooth_toward(self.timbre_q16, target.timbre_q16, sr),
        }
    }
}

impl Default for MpeData {
    /// No pressure, centred pitch bend, timbre at one half.
    fn default() -> (r: Self)
        ensures
            r.inv(),
            r == MpeData::spec_default(),
    {
        MpeData { pressure_q16: 0, pitch_bend_q16: 0, timbre_q16: FX_ONE / 2 }
    }
}

/// A command as it travels on the wire, carrying a microsecond wallclock
/// timestamp.
#[derive(Clone, Copy, PartialEq, Eq, Structural, Debug)]
pub enum HapticCommand {
    NoteOn { ts_us: u64, note: u8, velocity: u8, channel: u8, mpe: MpeData },
    NoteOff { ts_us: u64, note: u8, channel: u8 },
    MpeUpdate { ts_us: u64, channel: u8, mpe: MpeData },
    Panic,
}

impl HapticCommand {
    /// Well-formedness: note and velocity are seven-bit MIDI values and the
    /// expression data is in range.
    pub open spec fn inv(&self) -> bool {
        match *self {
            HapticCommand::NoteOn { note, velocity, mpe, .. } => {
                note < 128 && velocity < 128 && mpe.inv()
            },
            HapticCommand::NoteOff { .. } => true,
            HapticCommand::MpeUpdate { mpe, .. } => mpe.inv(),
            HapticCommand::Panic => true,
        }
    }

    /// Check well-formedness at run time, as a sender must before encoding.
    pub fn validate(&self) -> (b: bool)
        ensures
            b == self.inv(),
    {
        match self {
            HapticCommand::NoteOn { note, velocity, mpe, .. } => {
                *note < 128 && *velocity < 128 && mpe.validate()
            },
            HapticCommand::NoteOff { .. } => true,
            HapticCommand::MpeUpdate { mpe, .. } => mpe.validate(),
            HapticCommand::Panic => true,
        }
    }
}

/// The engine-internal form of a command, after timestamp stripping.
#[derive(Clone, Copy, PartialEq, Eq, Structural, Debug)]
pub enum EngineCommand {
    NoteOn { note: u8, velocity: u8, channel: u8, mpe: MpeData },
    NoteOff { note: u8, channel: u8 },
    MpeUpdate { channel: u8, mpe: MpeData },
    Panic,
}

impl EngineCommand {
    /// Well-formedness, as for `HapticCommand`.
    pub open spec fn inv(&self) -> bool {
        match *self {
            EngineCommand::NoteOn { note, velocity, mpe, .. } => {
                note < 128 && velocity < 128 && mpe.inv()
            },
            EngineCommand::NoteOff { .. } => true,
            EngineCommand::MpeUpdate { mpe, .. } => mpe.inv(),
            EngineCommand::Panic => true,
        }
    }

    /// Check well-formedness at run time: the bridge is fed by other
    /// threads, so the engine validates every command it drains.
    pub fn validate(&self) -> (b: bool)
        ensures
            b == self.inv(),
    {
        match self {
            EngineCommand::NoteOn { note, velocity, mpe, .. } => {
                *note < 128 && *velocity < 128 && mpe.validate()
            },
            EngineCommand::NoteOff { .. } => true,
            EngineCommand::MpeUpdate { mpe, .. } => mpe.validate(),
            EngineCommand::Panic => true,
        }
    }
}

/// What stripping the timestamp from a wire command yields.
pub open spec fn spec_strip_timestamp(cmd: HapticCommand) -> EngineCommand {
    match cmd {
        HapticCommand::NoteOn { note, velocity, channel, mpe, .. } => {
            EngineCommand::NoteOn { note, velocity, channel, mpe }
        },
        HapticCommand::NoteOff { note, channel, .. } => {
            EngineCommand::NoteOff { note, channel }
        },
        HapticCommand::MpeUpdate { channel, mpe, .. } => {
            EngineCommand::MpeUpdate { channel, mpe }
        },
        HapticCommand::Panic => EngineCommand::Panic,
    }
}

/// Strip the wallclock timestamp from a wire command.
pub fn strip_timestamp(cmd: HapticCommand) -> (r: EngineCommand)
    ensures
        r == spec_strip_timestamp(cmd),
        cmd.inv() ==> r.inv(),
{
    match cmd {
        HapticCommand::NoteOn { note, velocity, channel, mpe, .. } => {
            EngineCommand::NoteOn { note, velocity, channel, mpe }
        },
        HapticCommand::NoteOff { note, channel, .. } => {
            EngineCommand::NoteOff { note, channel }
        },
        HapticCommand::MpeUpdate { channel, mpe, .. } => {
            EngineCommand::MpeUpdate { channel, mpe }
        },
        HapticCommand::Panic => EngineCommand::Panic,
    }
}

/// Status report from the server back to a client: either a snapshot of the
/// 32 transducer levels or a coarse load figure.
#[derive(Clone, Debug)]
pub enum ServerStatus {
    TransducerLevels { ts_us: u64, levels_q16: Vec<i64> },
    PerformanceMetrics { active_stimuli: u8, cpu_percent: u8 },
}

impl ServerStatus {
    /// A level snapshot carries one bounded sample per transducer.
    pub open spec fn inv(&self) -> bool {
        match *self {
            ServerStatus::TransducerLevels { levels_q16, .. } => {
                &&& levels_q16.len() == 32
                &&& forall|i: int| 0 <= i < levels_q16.len()
                    ==> -FX_ONE <= #[trigger] levels_q16[i] <= FX_ONE
            },
            ServerStatus::PerformanceMetrics { cpu_percent, .. } => cpu_percent <= 100,
        }
    }
}

} // verus!

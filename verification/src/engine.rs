//! The engine driver: per audio frame it drains the command bridge
//! (bounded), routes note-ons by velocity into the propagating or standing
//! pool, advances every occupied voice, sums the per-transducer outputs and
//! applies the hard limiter.  The audio thread owns the engine exclusively;
//! nothing here locks, allocates, or performs I/O.

use vstd::prelude::*;
use crate::bridge::{bridge_channel, bridge_try_recv, bridge_try_send, clone_sender,
    BRIDGE_CAPACITY};
use crate::fixed::{clamp_unit, spec_clamp_unit, FX_ONE};
use crate::pool::{spec_mpe_effect, spec_note_off_effect, spec_note_on_effect,
    spec_pool_sum, StimulusPool};
use crate::protocol::{strip_timestamp, EngineCommand, HapticCommand};
use crate::voice::{ProcessContext, StandingWaveStimulus, Stimulus, WaveStimulus,
    MAX_WAVE_SPEED_Q16, MIN_WAVE_SPEED_Q16, TRANSDUCER_COUNT};
use crate::envelope::MAX_SAMPLE_RATE;

verus! {

/// Capacity of the propagating-wave pool.
pub const MAX_WAVE_STIMULI: usize = 8;

/// Capacity of the standing-wave pool.
pub const MAX_STANDING_STIMULI: usize = 4;

/// Transducer grid spacing: 5 cm in Q16 metres.
pub const GRID_STEP_Q16: i64 = 3277;

/// Propagation speed a note-on derives from its velocity:
/// `20 + (velocity / 127) * 480` metres per second, in Q16.
pub open spec fn spec_wave_speed_of_velocity(velocity: int) -> int {
    20 * FX_ONE as int + velocity * 480 * FX_ONE as int / 127
}

/// Map a note-on velocity to its propagation speed in Q16 m/s.
pub fn wave_speed_of_velocity(velocity: u8) -> (r: i64)
    requires
        velocity < 128,
    ensures
        r == spec_wave_speed_of_velocity(velocity as int),
        MIN_WAVE_SPEED_Q16 <= r <= MAX_WAVE_SPEED_Q16,
{
    let scaled: u64 = (velocity as u64) * 480 * 65536 / 127;
    1310720 + scaled as i64
}

/// The server-side stimulus engine: two preallocated voice pools, the
/// command bridge endpoints, and the fixed transducer grid.
pub struct StimulusEngine {
    pub wave_pool: StimulusPool<WaveStimulus>,
    pub standing_pool: StimulusPool<StandingWaveStimulus>,
    pub command_queue: crossbeam_channel::Receiver<EngineCommand>,
    pub command_producer: crossbeam_channel::Sender<EngineCommand>,
    pub transducer_positions: Vec<(i64, i64)>,
}

impl StimulusEngine {
    /// Well-formedness: both pools at their fixed capacities, every voice
    /// well-formed, and the grid positions in range.
    pub open spec fn inv(&self) -> bool {
        &&& self.wave_pool.inv()
        &&& self.wave_pool.spec_len() == MAX_WAVE_STIMULI
        &&& self.standing_pool.inv()
        &&& self.standing_pool.spec_len() == MAX_STANDING_STIMULI
        &&& self.transducer_positions.len() == TRANSDUCER_COUNT
        &&& forall|i: int| 0 <= i < self.transducer_positions.len()
            ==> 0 <= (#[trigger] self.transducer_positions[i]).0 <= 32768
                && 0 <= self.transducer_positions[i].1 <= 32768
    }

    /// Every slot of both pools is free: the engine is silent at rest.
    pub open spec fn all_idle(&self) -> bool {
        self.wave_pool.all_inactive() && self.standing_pool.all_inactive()
    }

    /// The 4 x 8 transducer grid at 5 cm spacing:
    /// position `i` is `(GRID_STEP_Q16 * (i % 8), GRID_STEP_Q16 * (i / 8))`.
    pub fn default_grid_layout() -> (r: Vec<(i64, i64)>)
        ensures
            r.len() == TRANSDUCER_COUNT,
            forall|i: int| 0 <= i < r.len()
                ==> (#[trigger] r[i]).0 == GRID_STEP_Q16 * (i % 8)
                    && r[i].1 == GRID_STEP_Q16 * (i / 8),
            forall|i: int| 0 <= i < r.len()
                ==> 0 <= (#[trigger] r[i]).0 <= 32768 && 0 <= r[i].1 <= 32768,
    {
        let mut r: Vec<(i64, i64)> = Vec::new();
        let mut i: usize = 0;
        while i < TRANSDUCER_COUNT
            invariant
                i == r.len(),
                i <= TRANSDUCER_COUNT,
                forall|j: int| 0 <= j < r.len()
                    ==> (#[trigger] r[j]).0 == GRID_STEP_Q16 * (j % 8)
                        && r[j].1 == GRID_STEP_Q16 * (j / 8),
                forall|j: int| 0 <= j < r.len()
                    ==> 0 <= (#[trigger] r[j]).0 <= 32768 && 0 <= r[j].1 <= 32768,
            decreases TRANSDUCER_COUNT - i,
        {
            let col: usize = i % 8;
            let row: usize = i / 8;
            r.push((GRID_STEP_Q16 * (col as i64), GRID_STEP_Q16 * (row as i64)));
            i = i + 1;
        }
        r
    }

    /// Build the engine: both pools full of idle voices, a fresh bridge,
    /// the default grid.
    pub fn new() -> (r: Self)
        ensures
            r.inv(),
            r.all_idle(),
            r.wave_pool.all_reset(),
            r.standing_pool.all_reset(),
            forall|i: int| 0 <= i < r.transducer_positions.len()
                ==> (#[trigger] r.transducer_positions[i]).0 == GRID_STEP_Q16 * (i % 8)
                    && r.transducer_positions[i].1 == GRID_STEP_Q16 * (i / 8),
    {
        let (sender, receiver) = bridge_channel();
        StimulusEngine {
            wave_pool: StimulusPool::new(MAX_WAVE_STIMULI),
            standing_pool: StimulusPool::new(MAX_STANDING_STIMULI),
            command_queue: receiver,
            command_producer: sender,
            transducer_positions: Self::default_grid_layout(),
        }
    }

    /// Another handle for IPC threads to feed the bridge.
    pub fn get_command_producer(&self) -> crossbeam_channel::Sender<EngineCommand> {
        clone_sender(&self.command_producer)
    }

    /// Strip a wire command's timestamp and offer it to the bridge; on a
    /// full bridge the command is dropped, preferring liveness.  The
    /// conversion is pinned at `strip_timestamp`; whether the bridge took
    /// the command is the shared channel's answer, of which nothing more
    /// can be promised.
    pub fn handle_command(&self, cmd: HapticCommand) -> (accepted: bool) {
        let engine_cmd = strip_timestamp(cmd);
        bridge_try_send(&self.command_producer, engine_cmd)
    }

    /// Apply one drained command to the pools, with the exact effect per
    /// arm.  A note-on routes by velocity (below 64: propagating pool):
    /// either the first free slot of the routed pool starts the note from a
    /// reset voice, or the pool was full and the note is dropped with no
    /// voice touched; the other pool is untouched either way.  A note-off
    /// releases exactly the voices recorded for its note and channel; an
    /// expression update retargets exactly the voices on its channel;
    /// neither changes occupancy.  Panic frees every slot and hard-resets
    /// every voice, delay buffers included.
    pub fn apply_command(&mut self, cmd: EngineCommand)
        requires
            old(self).inv(),
            cmd.inv(),
        ensures
            final(self).inv(),
            final(self).transducer_positions == old(self).transducer_positions,
            match cmd {
                EngineCommand::NoteOn { note, velocity, channel, mpe } => {
                    if velocity < 64 {
                        final(self).standing_pool == old(self).standing_pool
                            && spec_note_on_effect(
                                old(self).wave_pool, final(self).wave_pool,
                                note, velocity, channel, mpe,
                                Some(spec_wave_speed_of_velocity(velocity as int) as i64),
                            )
                    } else {
                        final(self).wave_pool == old(self).wave_pool
                            && spec_note_on_effect(
                                old(self).standing_pool, final(self).standing_pool,
                                note, velocity, channel, mpe, None,
                            )
                    }
                },
                EngineCommand::NoteOff { note, channel } => {
                    spec_note_off_effect(
                        old(self).wave_pool, final(self).wave_pool, note, channel)
                        && spec_note_off_effect(
                            old(self).standing_pool, final(self).standing_pool,
                            note, channel)
                },
                EngineCommand::MpeUpdate { channel, mpe } => {
                    spec_mpe_effect(
                        old(self).wave_pool, final(self).wave_pool, channel, mpe)
                        && spec_mpe_effect(
                            old(self).standing_pool, final(self).standing_pool,
                            channel, mpe)
                },
                EngineCommand::Panic => {
                    final(self).all_idle()
                        && final(self).wave_pool.all_reset()
                        && final(self).standing_pool.all_reset()
                },
            },
    {
        match cmd {
            EngineCommand::NoteOn { note, velocity, channel, mpe } => {
                let wave_speed = wave_speed_of_velocity(velocity);
                if velocity < 64 {
                    match self.wave_pool.allocate() {
                        Some(idx) => {
                            let ghost g1 = self.wave_pool;
                            self.wave_pool.note_on_slot(idx, note, velocity, channel, mpe);
                            let ghost g2 = self.wave_pool;
                            self.wave_pool.set_wave_speed_slot(idx, wave_speed);
                            proof {
                                assert(g1.stimuli[idx as int].spec_note_on_post(
                                    g2.stimuli[idx as int], note, velocity, mpe));
                                assert(g2.stimuli[idx as int].spec_set_speed_post(
                                    self.wave_pool.stimuli[idx as int], wave_speed));
                                assert(spec_note_on_effect(
                                    old(self).wave_pool, self.wave_pool,
                                    note, velocity, channel, mpe, Some(wave_speed)));
                            }
                        },
                        None => {},
                    }
                } else {
                    match self.standing_pool.allocate() {
                        Some(idx) => {
                            let ghost g1 = self.standing_pool;
                            self.standing_pool.note_on_slot(idx, note, velocity, channel, mpe);
                            proof {
                                assert(g1.stimuli[idx as int].spec_note_on_post(
                                    self.standing_pool.stimuli[idx as int],
                                    note, velocity, mpe));
                                assert(spec_note_on_effect(
                                    old(self).standing_pool, self.standing_pool,
                                    note, velocity, channel, mpe, None));
                            }
                        },
                        None => {},
                    }
                }
            },
            EngineCommand::NoteOff { note, channel } => {
                self.wave_pool.note_off_matching(note, channel);
                self.standing_pool.note_off_matching(note, channel);
            },
            EngineCommand::MpeUpdate { channel, mpe } => {
                self.wave_pool.mpe_update_channel(channel, mpe);
                self.standing_pool.mpe_update_channel(channel, mpe);
            },
            EngineCommand::Panic => {
                self.wave_pool.panic_all();
                self.standing_pool.panic_all();
            },
        }
    }

    /// Drain the bridge: stop as soon as it is empty, and apply at most
    /// `BRIDGE_CAPACITY` commands per callback, so command handling per
    /// frame is bounded.  Malformed commands are dropped.  Returns how many
    /// commands were applied.
    pub fn drain_commands(&mut self) -> (applied: usize)
        requires
            old(self).inv(),
        ensures
            final(self).inv(),
            applied <= BRIDGE_CAPACITY,
    {
        let mut i: usize = 0;
        while i < BRIDGE_CAPACITY
            invariant
                self.inv(),
                i <= BRIDGE_CAPACITY,
            decreases BRIDGE_CAPACITY - i,
        {
            let received = bridge_try_recv(&self.command_queue);
            match received {
                Some(cmd) => {
                    if cmd.validate() {
                        self.apply_command(cmd);
                    }
                },
                None => {
                    return i;
                },
            }
            i = i + 1;
        }
        i
    }

    /// What the engine's pools together contribute to transducer `j` this
    /// frame, before the limiter.
    pub open spec fn spec_frame_sum(&self, sample_rate: u32, j: int) -> int {
        spec_pool_sum(self.wave_pool.stimuli@, self.wave_pool.active_mask@,
            sample_rate, self.transducer_positions@, MAX_WAVE_STIMULI as int, j)
            + spec_pool_sum(self.standing_pool.stimuli@, self.standing_pool.active_mask@,
                sample_rate, self.transducer_positions@, MAX_STANDING_STIMULI as int, j)
    }

    /// Render one frame: zero the scratch, let both pools add their active
    /// voices, clamp every entry to `[-FX_ONE, FX_ONE]`.  The output is
    /// exactly the clamped contribution sum — in particular independent of
    /// what the scratch held — every processed voice advances by exactly
    /// one sample, occupancy bits clear exactly where a voice had gone
    /// idle, and an engine with no occupied slot emits exactly zero.
    pub fn render(&mut self, out: &mut Vec<i64>, sample_rate: u32)
        requires
            old(self).inv(),
            old(out).len() == TRANSDUCER_COUNT,
            1 <= sample_rate <= MAX_SAMPLE_RATE,
        ensures
            final(self).inv(),
            final(out).len() == TRANSDUCER_COUNT,
            forall|i: int| 0 <= i < final(out).len()
                ==> -FX_ONE <= #[trigger] final(out)[i] <= FX_ONE,
            forall|j: int| 0 <= j < final(out).len()
                ==> #[trigger] final(out)[j]
                    == spec_clamp_unit(old(self).spec_frame_sum(sample_rate, j)),
            old(self).all_idle()
                ==> (forall|i: int| 0 <= i < final(out).len() ==> #[trigger] final(out)[i] == 0)
                    && final(self).all_idle(),
            forall|i: int| 0 <= i < final(self).wave_pool.active_mask@.len()
                ==> #[trigger] final(self).wave_pool.active_mask@[i]
                    == (old(self).wave_pool.active_mask@[i]
                        && old(self).wave_pool.stimuli[i].active()),
            forall|i: int| 0 <= i < final(self).standing_pool.active_mask@.len()
                ==> #[trigger] final(self).standing_pool.active_mask@[i]
                    == (old(self).standing_pool.active_mask@[i]
                        && old(self).standing_pool.stimuli[i].active()),
            forall|i: int| 0 <= i < old(self).wave_pool.stimuli.len()
                ==> if old(self).wave_pool.active_mask@[i]
                        && old(self).wave_pool.stimuli[i].active() {
                    old(self).wave_pool.stimuli[i].spec_post(
                        #[trigger] final(self).wave_pool.stimuli[i],
                        sample_rate, old(self).transducer_positions@)
                } else {
                    final(self).wave_pool.stimuli[i] == old(self).wave_pool.stimuli[i]
                },
            forall|i: int| 0 <= i < old(self).standing_pool.stimuli.len()
                ==> if old(self).standing_pool.active_mask@[i]
                        && old(self).standing_pool.stimuli[i].active() {
                    old(self).standing_pool.stimuli[i].spec_post(
                        #[trigger] final(self).standing_pool.stimuli[i],
                        sample_rate, old(self).transducer_positions@)
                } else {
                    final(self).standing_pool.stimuli[i]
                        == old(self).standing_pool.stimuli[i]
                },
            final(self).transducer_positions == old(self).transducer_positions,
    {
        let mut i: usize = 0;
        while i < TRANSDUCER_COUNT
            invariant
                out.len() == TRANSDUCER_COUNT,
                i <= TRANSDUCER_COUNT,
                forall|j: int| 0 <= j < i as int ==> #[trigger] out[j] == 0,
            decreases TRANSDUCER_COUNT - i,
        {
            out[i] = 0;
            i = i + 1;
        }

        let ctx = ProcessContext {
            sample_rate,
            transducer_positions: &self.transducer_positions,
        };
        self.wave_pool.process_all(&ctx, out);
        self.standing_pool.process_all(&ctx, out);

        let ghost acc = out@;
        let mut i: usize = 0;
        while i < TRANSDUCER_COUNT
            invariant
                out.len() == TRANSDUCER_COUNT,
                acc.len() == TRANSDUCER_COUNT,
                i <= TRANSDUCER_COUNT,
                forall|j: int| 0 <= j < TRANSDUCER_COUNT as int
                    ==> #[trigger] acc[j] == old(self).spec_frame_sum(sample_rate, j),
                forall|j: int| 0 <= j < i as int
                    ==> #[trigger] out[j] == spec_clamp_unit(acc[j] as int),
                forall|j: int| 0 <= j < i as int
                    ==> -FX_ONE <= #[trigger] out[j] <= FX_ONE,
                forall|j: int| 0 <= j < i as int
                    ==> (old(self).all_idle() ==> #[trigger] out[j] == 0),
                forall|j: int| i as int <= j < out.len() ==> #[trigger] out[j] == acc[j],
                forall|j: int| i as int <= j < out.len()
                    ==> (old(self).all_idle() ==> #[trigger] out[j] == 0),
            decreases TRANSDUCER_COUNT - i,
        {
            out[i] = clamp_unit(out[i]);
            i = i + 1;
        }
    }

    /// One audio frame: drain the bridge, then render.  Every emitted
    /// sample is within `[-FX_ONE, FX_ONE]`.
    pub fn process(&mut self, out: &mut Vec<i64>, sample_rate: u32)
        requires
            old(self).inv(),
            old(out).len() == TRANSDUCER_COUNT,
            1 <= sample_rate <= MAX_SAMPLE_RATE,
        ensures
            final(self).inv(),
            final(out).len() == TRANSDUCER_COUNT,
            forall|i: int| 0 <= i < final(out).len()
                ==> -FX_ONE <= #[trigger] final(out)[i] <= FX_ONE,
    {
        let _applied: usize = self.drain_commands();
        self.render(out, sample_rate);
    }
}

} // verus!

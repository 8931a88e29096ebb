//! The two voice models and the interface the pools drive them through.
//!
//! A propagating-wave voice renders a point source moving with the note's
//! expression data: each transducer hears the source delayed by its distance
//! over the wave speed and attenuated with distance.  A standing-wave voice
//! emits the same sample in phase on every channel.  Incoming expression
//! data is a target: each voice follows it with a one-pole smoother of
//! about 20 ms so that updates cause no zipper noise.
//!
//! Every mutation is pinned exactly: the trait carries, per voice model, a
//! spec predicate for each command's effect, a `spec_post` relation for one
//! sample of state advance, and a `spec_out` function for the contribution
//! added to each transducer.

use vstd::prelude::*;
use crate::delay::{spec_delay_step, DelayLine};
use crate::envelope::{EnvState, Envelope, MAX_SAMPLE_RATE};
use crate::fixed::{
    advance_phase, attenuate_q16, isqrt_u64, mul_q16, sine_q16, spec_advance_phase,
    spec_attenuate_q16, spec_isqrt, spec_mul_q16, spec_sine_q16,
    FREQ_MAX, FX_ONE, PHASE_ONE,
};
use crate::protocol::MpeData;

verus! {

/// Number of transducers in the array.
pub const TRANSDUCER_COUNT: usize = 32;

/// Slowest propagation speed a voice accepts: 1 m/s in Q16.
pub const MIN_WAVE_SPEED_Q16: i64 = 65536;

/// Fastest propagation speed a note-on can derive: 500 m/s in Q16.
pub const MAX_WAVE_SPEED_Q16: i64 = 32768000;

/// Magnitude bound on a per-transducer accumulator entry a voice may be
/// asked to add its output into.
pub const ACC_LIMIT: i64 = 0x1_0000_0000;

/// Per-callback context handed to every voice: the device sample rate and
/// the fixed grid of transducer positions (Q16 metres).
pub struct ProcessContext<'a> {
    pub sample_rate: u32,
    pub transducer_positions: &'a Vec<(i64, i64)>,
}

impl<'a> ProcessContext<'a> {
    /// A usable context: in-range sample rate, one position per transducer,
    /// all positions on the (non-negative, sub-half-metre) grid.
    pub open spec fn inv(&self) -> bool {
        &&& 1 <= self.sample_rate <= MAX_SAMPLE_RATE
        &&& self.transducer_positions.len() == TRANSDUCER_COUNT
        &&& forall|i: int| 0 <= i < self.transducer_positions.len()
            ==> 0 <= (#[trigger] self.transducer_positions[i]).0 <= 32768
                && 0 <= self.transducer_positions[i].1 <= 32768
    }
}

/// Ratio of the `s`-th equal-tempered semitone above a reference, in Q16.
pub open spec fn spec_semitone_ratio_q16(s: int) -> int {
    if s == 0 { 65536 }
    else if s == 1 { 69433 }
    else if s == 2 { 73562 }
    else if s == 3 { 77936 }
    else if s == 4 { 82570 }
    else if s == 5 { 87480 }
    else if s == 6 { 92682 }
    else if s == 7 { 98193 }
    else if s == 8 { 104032 }
    else if s == 9 { 110218 }
    else if s == 10 { 116772 }
    else { 123722 }
}

/// Equal-tempered pitch of a MIDI note in Q16 Hz: 440 Hz at note 69,
/// doubling every twelve notes.
pub open spec fn spec_frequency_of_note(note: int) -> int {
    let m = note + 75;
    let q = m % 12;
    let o = m / 12;
    if o >= 16 { 440 * spec_semitone_ratio_q16(q) * 16 }
    else if o == 15 { 440 * spec_semitone_ratio_q16(q) * 8 }
    else if o == 14 { 440 * spec_semitone_ratio_q16(q) * 4 }
    else if o == 13 { 440 * spec_semitone_ratio_q16(q) * 2 }
    else if o == 12 { 440 * spec_semitone_ratio_q16(q) }
    else if o == 11 { 440 * spec_semitone_ratio_q16(q) / 2 }
    else if o == 10 { 440 * spec_semitone_ratio_q16(q) / 4 }
    else if o == 9 { 440 * spec_semitone_ratio_q16(q) / 8 }
    else if o == 8 { 440 * spec_semitone_ratio_q16(q) / 16 }
    else if o == 7 { 440 * spec_semitone_ratio_q16(q) / 32 }
    else { 440 * spec_semitone_ratio_q16(q) / 64 }
}

/// Map a MIDI note number to its Q16 frequency.
pub fn frequency_of_note(note: u8) -> (r: i64)
    requires
        note < 128,
    ensures
        r == spec_frequency_of_note(note as int),
        0 <= r <= FREQ_MAX,
{
    let m: u32 = note as u32 + 75;
    let q: u32 = m % 12;
    let o: u32 = m / 12;
    let ratio: u64 = if q == 0 { 65536 }
        else if q == 1 { 69433 }
        else if q == 2 { 73562 }
        else if q == 3 { 77936 }
        else if q == 4 { 82570 }
        else if q == 5 { 87480 }
        else if q == 6 { 92682 }
        else if q == 7 { 98193 }
        else if q == 8 { 104032 }
        else if q == 9 { 110218 }
        else if q == 10 { 116772 }
        else { 123722 };
    let base: u64 = 440 * ratio;
    let r: u64 = if o >= 16 { base * 16 }
        else if o == 15 { base * 8 }
        else if o == 14 { base * 4 }
        else if o == 13 { base * 2 }
        else if o == 12 { base }
        else if o == 11 { base / 2 }
        else if o == 10 { base / 4 }
        else if o == 9 { base / 8 }
        else if o == 8 { base / 16 }
        else if o == 7 { base / 32 }
        else { base / 64 };
    r as i64
}

/// Amplitude of a note in Q16: `velocity / 127`.
pub open spec fn spec_amplitude_of_velocity(velocity: int) -> int {
    velocity * FX_ONE as int / 127
}

/// Map a MIDI velocity to a Q16 amplitude in `[0, FX_ONE]`.
pub fn amplitude_of_velocity(velocity: u8) -> (r: i64)
    requires
        velocity < 128,
    ensures
        r == spec_amplitude_of_velocity(velocity as int),
        0 <= r <= FX_ONE,
{
    ((velocity as u64) * 65536 / 127) as i64
}

/// What the pools ask of a voice.  Both voice models implement it; the pool
/// and engine proofs rest only on these contracts, and each spec function
/// is defined exactly by each implementation.
pub trait Stimulus: Sized {
    /// Structural well-formedness of the voice.
    spec fn inv(&self) -> bool;

    /// Whether the voice still occupies its slot: its envelope has not
    /// returned to `Idle`.
    spec fn active(&self) -> bool;

    /// The freshly-reset state that `new_idle` and `reset` leave behind:
    /// idle, silent, with cleared internal buffers.
    spec fn is_reset(&self) -> bool;

    /// Exact effect of `note_on` on every field.
    spec fn spec_note_on_post(&self, post: Self, note: u8, velocity: u8, mpe: MpeData) -> bool;

    /// Exact effect of `note_off`: the envelope released, all else kept.
    spec fn spec_note_off_post(&self, post: Self) -> bool;

    /// Exact effect of `mpe_update`: the target replaced, all else kept.
    spec fn spec_mpe_update_post(&self, post: Self, mpe: MpeData) -> bool;

    /// Exact effect of `set_wave_speed` (a no-op for voices without one).
    spec fn spec_set_speed_post(&self, post: Self, wave_speed_q16: i64) -> bool;

    /// Exact relation between the state before and after one sample.
    spec fn spec_post(&self, post: Self, sample_rate: u32, positions: Seq<(i64, i64)>) -> bool;

    /// Exact contribution one sample of this voice adds to transducer `j`.
    spec fn spec_out(&self, sample_rate: u32, positions: Seq<(i64, i64)>, j: int) -> int;

    /// A freshly constructed, inactive voice.
    fn new_idle() -> (v: Self)
        ensures
            v.inv(),
            !v.active(),
            v.is_reset();

    /// Report whether the voice is still active.
    fn is_active(&self) -> (b: bool)
        requires
            self.inv(),
        ensures
            b == self.active();

    /// Start a note: set pitch and amplitude and enter the attack stage.
    fn note_on(&mut self, note: u8, velocity: u8, mpe: MpeData)
        requires
            old(self).inv(),
            note < 128,
            velocity < 128,
            mpe.inv(),
        ensures
            final(self).inv(),
            final(self).active(),
            old(self).spec_note_on_post(*final(self), note, velocity, mpe);

    /// Release the note: a non-idle voice enters Release, an idle one is
    /// untouched.
    fn note_off(&mut self)
        requires
            old(self).inv(),
        ensures
            final(self).inv(),
            final(self).active() == old(self).active(),
            old(self).spec_note_off_post(*final(self));

    /// Replace the voice's expression target.
    fn mpe_update(&mut self, mpe: MpeData)
        requires
            old(self).inv(),
            mpe.inv(),
        ensures
            final(self).inv(),
            final(self).active() == old(self).active(),
            old(self).spec_mpe_update_post(*final(self), mpe);

    /// Set the propagation speed; voices without one ignore it.
    fn set_wave_speed(&mut self, wave_speed_q16: i64)
        requires
            old(self).inv(),
            MIN_WAVE_SPEED_Q16 <= wave_speed_q16 <= MAX_WAVE_SPEED_Q16,
        ensures
            final(self).inv(),
            final(self).active() == old(self).active(),
            old(self).spec_set_speed_post(*final(self), wave_speed_q16);

    /// Hard reset to the idle state with cleared internal buffers.
    fn reset(&mut self)
        requires
            old(self).inv(),
        ensures
            final(self).inv(),
            !final(self).active(),
            final(self).is_reset();

    /// Advance one sample and add this voice's contribution, at most one in
    /// magnitude per transducer, into `out`.  An inactive voice changes
    /// nothing; an active one advances by exactly `spec_post` and adds
    /// exactly `spec_out` per transducer.
    fn process(&mut self, ctx: &ProcessContext<'_>, out: &mut Vec<i64>)
        requires
            old(self).inv(),
            ctx.inv(),
            old(out).len() == TRANSDUCER_COUNT,
            forall|j: int| 0 <= j < old(out).len()
                ==> -ACC_LIMIT <= #[trigger] old(out)[j] <= ACC_LIMIT,
        ensures
            final(self).inv(),
            final(out).len() == TRANSDUCER_COUNT,
            forall|j: int| 0 <= j < final(out).len()
                ==> old(out)[j] - FX_ONE <= #[trigger] final(out)[j] <= old(out)[j] + FX_ONE,
            !old(self).active() ==> final(out)@ == old(out)@ && *final(self) == *old(self),
            final(self).active() ==> old(self).active(),
            old(self).active()
                ==> old(self).spec_post(*final(self), ctx.sample_rate,
                        ctx.transducer_positions@),
            old(self).active() ==> forall|j: int| 0 <= j < final(out).len()
                ==> #[trigger] final(out)[j] == old(out)[j]
                    + old(self).spec_out(ctx.sample_rate, ctx.transducer_positions@, j);
}

/// A propagating-wave voice: a moving point source heard through one
/// fractional delay line per transducer.
pub struct WaveStimulus {
    pub delay_lines: Vec<DelayLine>,
    pub frequency_q16: i64,
    pub phase_q32: u64,
    pub amplitude_q16: i64,
    pub source_pos: (i64, i64),
    pub wave_speed_q16: i64,
    pub envelope: Envelope,
    pub mpe: MpeData,
    pub mpe_target: MpeData,
}

/// The source sample a propagating voice emits this sample: the sine of the
/// current phase scaled by amplitude, the stepped envelope, and the
/// smoothed pressure.
pub open spec fn spec_wave_source(v: WaveStimulus, sr: int) -> int {
    let env2 = v.envelope.spec_stepped(sr);
    let m2 = v.mpe.spec_smoothed(v.mpe_target, sr);
    spec_mul_q16(
        spec_mul_q16(
            spec_mul_q16(spec_sine_q16(v.phase_q32), v.amplitude_q16 as int),
            env2.level_q32 as int / 65536,
        ),
        m2.pressure_q16 as int,
    )
}

/// Distance (Q16 metres) from transducer `i` to the source position this
/// sample, after the expression follower moved.
pub open spec fn spec_wave_distance(v: WaveStimulus, sr: int, positions: Seq<(i64, i64)>, i: int) -> int {
    let m2 = v.mpe.spec_smoothed(v.mpe_target, sr);
    let sx = spec_mul_q16(m2.pitch_bend_q16 as int, 13107);
    let sy = spec_mul_q16(m2.timbre_q16 as int, 13107);
    let dx = positions[i].0 - sx;
    let dy = positions[i].1 - sy;
    spec_isqrt(dx * dx + dy * dy)
}

/// Propagation delay (Q16 samples) for transducer `i`:
/// `distance / wave_speed * sample_rate`.
pub open spec fn spec_wave_delay(v: WaveStimulus, sr: int, positions: Seq<(i64, i64)>, i: int) -> int {
    spec_wave_distance(v, sr, positions, i) * sr * 65536 / (v.wave_speed_q16 as int)
}

/// One step of delay line `i`: the written buffer, the advanced cursor,
/// and the interpolated read.
pub open spec fn spec_wave_line_step(
    v: WaveStimulus, sr: int, positions: Seq<(i64, i64)>, i: int,
) -> (Seq<i64>, int, int) {
    let dq = spec_wave_delay(v, sr, positions, i);
    spec_delay_step(
        v.delay_lines[i].buffer@,
        v.delay_lines[i].cursor as int,
        spec_wave_source(v, sr) as i64,
        dq / 65536,
        dq % 65536,
    )
}

impl Stimulus for WaveStimulus {
    open spec fn inv(&self) -> bool {
        &&& self.delay_lines.len() == TRANSDUCER_COUNT
        &&& forall|i: int| 0 <= i < self.delay_lines.len()
            ==> (#[trigger] self.delay_lines[i]).inv()
        &&& 0 <= self.frequency_q16 <= FREQ_MAX
        &&& self.phase_q32 < PHASE_ONE
        &&& 0 <= self.amplitude_q16 <= FX_ONE
        &&& -FX_ONE <= self.source_pos.0 <= FX_ONE
        &&& -FX_ONE <= self.source_pos.1 <= FX_ONE
        &&& MIN_WAVE_SPEED_Q16 <= self.wave_speed_q16 <= MAX_WAVE_SPEED_Q16
        &&& self.envelope.inv()
        &&& self.mpe.inv()
        &&& self.mpe_target.inv()
    }

    open spec fn active(&self) -> bool {
        self.envelope.active()
    }

    open spec fn is_reset(&self) -> bool {
        &&& self.frequency_q16 == 0
        &&& self.phase_q32 == 0
        &&& self.amplitude_q16 == 0
        &&& self.source_pos == (0i64, 0i64)
        &&& self.wave_speed_q16 == 100 * FX_ONE
        &&& self.envelope == (Envelope {
            state: EnvState::Idle,
            level_q32: 0,
            time_samples: 0,
        })
        &&& self.mpe == MpeData::spec_default()
        &&& self.mpe_target == MpeData::spec_default()
        &&& self.delay_lines.len() == TRANSDUCER_COUNT
        &&& forall|i: int| 0 <= i < self.delay_lines.len()
            ==> (#[trigger] self.delay_lines[i]).silent() && self.delay_lines[i].cursor == 0
    }

    open spec fn spec_note_on_post(&self, post: Self, note: u8, velocity: u8, mpe: MpeData) -> bool {
        &&& post.frequency_q16 == spec_frequency_of_note(note as int)
        &&& post.amplitude_q16 == spec_amplitude_of_velocity(velocity as int)
        &&& post.mpe == mpe
        &&& post.mpe_target == mpe
        &&& post.envelope == (Envelope {
            state: EnvState::Attack,
            level_q32: 0,
            time_samples: 0,
        })
        &&& post.wave_speed_q16 == 100 * FX_ONE
        &&& post.phase_q32 == self.phase_q32
        &&& post.source_pos == self.source_pos
        &&& post.delay_lines == self.delay_lines
    }

    open spec fn spec_note_off_post(&self, post: Self) -> bool {
        &&& post.envelope == self.envelope.spec_released()
        &&& post.frequency_q16 == self.frequency_q16
        &&& post.phase_q32 == self.phase_q32
        &&& post.amplitude_q16 == self.amplitude_q16
        &&& post.source_pos == self.source_pos
        &&& post.wave_speed_q16 == self.wave_speed_q16
        &&& post.mpe == self.mpe
        &&& post.mpe_target == self.mpe_target
        &&& post.delay_lines == self.delay_lines
    }

    open spec fn spec_mpe_update_post(&self, post: Self, mpe: MpeData) -> bool {
        &&& post.mpe_target == mpe
        &&& post.mpe == self.mpe
        &&& post.envelope == self.envelope
        &&& post.frequency_q16 == self.frequency_q16
        &&& post.phase_q32 == self.phase_q32
        &&& post.amplitude_q16 == self.amplitude_q16
        &&& post.source_pos == self.source_pos
        &&& post.wave_speed_q16 == self.wave_speed_q16
        &&& post.delay_lines == self.delay_lines
    }

    open spec fn spec_set_speed_post(&self, post: Self, wave_speed_q16: i64) -> bool {
        &&& post.wave_speed_q16 == wave_speed_q16
        &&& post.frequency_q16 == self.frequency_q16
        &&& post.phase_q32 == self.phase_q32
        &&& post.amplitude_q16 == self.amplitude_q16
        &&& post.source_pos == self.source_pos
        &&& post.envelope == self.envelope
        &&& post.mpe == self.mpe
        &&& post.mpe_target == self.mpe_target
        &&& post.delay_lines == self.delay_lines
    }

    open spec fn spec_post(&self, post: Self, sample_rate: u32, positions: Seq<(i64, i64)>) -> bool {
        let sri = sample_rate as int;
        let m2 = self.mpe.spec_smoothed(self.mpe_target, sri);
        &&& post.envelope == self.envelope.spec_stepped(sri)
        &&& post.mpe == m2
        &&& post.mpe_target == self.mpe_target
        &&& post.source_pos.0 as int == spec_mul_q16(m2.pitch_bend_q16 as int, 13107)
        &&& post.source_pos.1 as int == spec_mul_q16(m2.timbre_q16 as int, 13107)
        &&& post.phase_q32 as int
            == spec_advance_phase(self.phase_q32, self.frequency_q16 as int, sri)
        &&& post.frequency_q16 == self.frequency_q16
        &&& post.amplitude_q16 == self.amplitude_q16
        &&& post.wave_speed_q16 == self.wave_speed_q16
        &&& post.delay_lines.len() == TRANSDUCER_COUNT
        &&& forall|i: int| 0 <= i < TRANSDUCER_COUNT as int
            ==> (#[trigger] post.delay_lines[i]).buffer@
                    == spec_wave_line_step(*self, sri, positions, i).0
                && post.delay_lines[i].cursor as int
                    == spec_wave_line_step(*self, sri, positions, i).1
    }

    open spec fn spec_out(&self, sample_rate: u32, positions: Seq<(i64, i64)>, j: int) -> int {
        let sri = sample_rate as int;
        spec_attenuate_q16(
            spec_wave_line_step(*self, sri, positions, j).2,
            65536 + 2 * spec_wave_distance(*self, sri, positions, j),
        )
    }

    fn new_idle() -> (v: Self) {
        let mut delay_lines: Vec<DelayLine> = Vec::new();
        let mut i: usize = 0;
        while i < TRANSDUCER_COUNT
            invariant
                i == delay_lines.len(),
                i <= TRANSDUCER_COUNT,
                forall|j: int| 0 <= j < delay_lines.len()
                    ==> (#[trigger] delay_lines[j]).inv()
                        && delay_lines[j].silent()
                        && delay_lines[j].cursor == 0,
            decreases TRANSDUCER_COUNT - i,
        {
            delay_lines.push(DelayLine::new());
            i = i + 1;
        }
        WaveStimulus {
            delay_lines,
            frequency_q16: 0,
            phase_q32: 0,
            amplitude_q16: 0,
            source_pos: (0, 0),
            wave_speed_q16: 100 * FX_ONE,
            envelope: Envelope::new_idle(),
            mpe: MpeData::default(),
            mpe_target: MpeData::default(),
        }
    }

    fn is_active(&self) -> (b: bool) {
        self.envelope.state != EnvState::Idle
    }

    fn note_on(&mut self, note: u8, velocity: u8, mpe: MpeData) {
        self.frequency_q16 = frequency_of_note(note);
        self.amplitude_q16 = amplitude_of_velocity(velocity);
        self.mpe = mpe;
        self.mpe_target = mpe;
        self.envelope.trigger_attack();
        self.wave_speed_q16 = 100 * FX_ONE;
    }

    fn note_off(&mut self) {
        self.envelope.trigger_release();
    }

    fn mpe_update(&mut self, mpe: MpeData) {
        self.mpe_target = mpe;
    }

    fn set_wave_speed(&mut self, wave_speed_q16: i64) {
        self.wave_speed_q16 = wave_speed_q16;
    }

    fn reset(&mut self) {
        let mut i: usize = 0;
        while i < TRANSDUCER_COUNT
            invariant
                self.delay_lines.len() == TRANSDUCER_COUNT,
                i <= TRANSDUCER_COUNT,
                forall|j: int| 0 <= j < self.delay_lines.len()
                    ==> (#[trigger] self.delay_lines[j]).inv(),
                forall|j: int| 0 <= j < i as int
                    ==> (#[trigger] self.delay_lines[j]).silent()
                        && self.delay_lines[j].cursor == 0,
            decreases TRANSDUCER_COUNT - i,
        {
            self.delay_lines[i].reset();
            i = i + 1;
        }
        self.frequency_q16 = 0;
        self.phase_q32 = 0;
        self.amplitude_q16 = 0;
        self.source_pos = (0, 0);
        self.wave_speed_q16 = 100 * FX_ONE;
        self.envelope.reset();
        self.mpe = MpeData::default();
        self.mpe_target = MpeData::default();
    }

    fn process(&mut self, ctx: &ProcessContext<'_>, out: &mut Vec<i64>) {
        if self.envelope.state == EnvState::Idle {
            return;
        }
        self.envelope.step(ctx.sample_rate);
        self.mpe = self.mpe.smoothed(&self.mpe_target, ctx.sample_rate);
        self.source_pos = (
            mul_q16(self.mpe.pitch_bend_q16, 13107),
            mul_q16(self.mpe.timbre_q16, 13107),
        );
        let env16: i64 = self.envelope.level_q16();
        let s0: i64 = sine_q16(self.phase_q32);
        let s1: i64 = mul_q16(s0, self.amplitude_q16);
        let s2: i64 = mul_q16(s1, env16);
        let source: i64 = mul_q16(s2, self.mpe.pressure_q16);
        proof {
            assert(source as int == spec_wave_source(*old(self), ctx.sample_rate as int));
        }

        let mut i: usize = 0;
        while i < TRANSDUCER_COUNT
            invariant
                ctx.inv(),
                old(self).inv(),
                self.frequency_q16 == old(self).frequency_q16,
                self.phase_q32 == old(self).phase_q32,
                self.amplitude_q16 == old(self).amplitude_q16,
                self.wave_speed_q16 == old(self).wave_speed_q16,
                self.envelope == old(self).envelope.spec_stepped(ctx.sample_rate as int),
                self.mpe == old(self).mpe.spec_smoothed(
                    old(self).mpe_target, ctx.sample_rate as int),
                self.mpe_target == old(self).mpe_target,
                self.mpe.inv(),
                self.source_pos.0 as int == spec_mul_q16(self.mpe.pitch_bend_q16 as int, 13107),
                self.source_pos.1 as int == spec_mul_q16(self.mpe.timbre_q16 as int, 13107),
                -FX_ONE <= self.source_pos.0 <= FX_ONE,
                -FX_ONE <= self.source_pos.1 <= FX_ONE,
                source as int == spec_wave_source(*old(self), ctx.sample_rate as int),
                -FX_ONE <= source <= FX_ONE,
                self.delay_lines.len() == TRANSDUCER_COUNT,
                forall|j: int| 0 <= j < self.delay_lines.len()
                    ==> (#[trigger] self.delay_lines[j]).inv(),
                i <= TRANSDUCER_COUNT,
                forall|j: int| i as int <= j < TRANSDUCER_COUNT as int
                    ==> #[trigger] self.delay_lines[j] == old(self).delay_lines[j],
                forall|j: int| 0 <= j < i as int
                    ==> (#[trigger] self.delay_lines[j]).buffer@
                            == spec_wave_line_step(*old(self), ctx.sample_rate as int,
                                ctx.transducer_positions@, j).0
                        && self.delay_lines[j].cursor as int
                            == spec_wave_line_step(*old(self), ctx.sample_rate as int,
                                ctx.transducer_positions@, j).1,
                out.len() == TRANSDUCER_COUNT,
                old(out).len() == TRANSDUCER_COUNT,
                forall|j: int| 0 <= j < old(out).len()
                    ==> -ACC_LIMIT <= #[trigger] old(out)[j] <= ACC_LIMIT,
                forall|j: int| 0 <= j < i as int
                    ==> old(out)[j] - FX_ONE <= #[trigger] out[j] <= old(out)[j] + FX_ONE,
                forall|j: int| 0 <= j < i as int
                    ==> #[trigger] out[j] == old(out)[j]
                        + old(self).spec_out(ctx.sample_rate, ctx.transducer_positions@, j),
                forall|j: int| i as int <= j < out.len() ==> #[trigger] out[j] == old(out)[j],
            decreases TRANSDUCER_COUNT - i,
        {
            let p: (i64, i64) = ctx.transducer_positions[i];
            let dx: i64 = p.0 - self.source_pos.0;
            let dy: i64 = p.1 - self.source_pos.1;
            proof {
                assert(0 <= dx * dx <= 0x2_4000_0000 && 0 <= dy * dy <= 0x2_4000_0000)
                    by (nonlinear_arith)
                    requires -98304 <= dx <= 98304, -98304 <= dy <= 98304;
            }
            let d2: u64 = (dx * dx + dy * dy) as u64;
            let d: u64 = isqrt_u64(d2);
            let srq: u64 = ctx.sample_rate as u64;
            proof {
                assert(d as int == spec_wave_distance(*old(self), ctx.sample_rate as int,
                    ctx.transducer_positions@, i as int));
                assert(d < 262144) by (nonlinear_arith)
                    requires d * d <= d2, d2 <= 0x4_8000_0000u64;
                assert(d * srq <= 0x40_0000_0000u64) by (nonlinear_arith)
                    requires d < 262144, srq <= 0x10_0000u64;
            }
            let delay_q16: u64 = d * srq * 65536 / (self.wave_speed_q16 as u64);
            proof {
                assert(delay_q16 as int == spec_wave_delay(*old(self),
                    ctx.sample_rate as int, ctx.transducer_positions@, i as int));
            }
            let y: i64 = self.delay_lines[i].write_and_read(source, delay_q16);
            proof {
                assert(y as int == spec_wave_line_step(*old(self), ctx.sample_rate as int,
                    ctx.transducer_positions@, i as int).2);
            }
            let denom: i64 = 65536 + 2 * (d as i64);
            let att: i64 = attenuate_q16(y, denom);
            proof {
                assert(att as int == old(self).spec_out(ctx.sample_rate,
                    ctx.transducer_positions@, i as int));
            }
            out[i] = out[i] + att;
            i = i + 1;
        }

        self.phase_q32 = advance_phase(self.phase_q32, self.frequency_q16, ctx.sample_rate);
    }
}

/// A standing-wave voice: every transducer emits the source sample in phase.
pub struct StandingWaveStimulus {
    pub frequency_q16: i64,
    pub phase_q32: u64,
    pub amplitude_q16: i64,
    pub envelope: Envelope,
    pub mpe: MpeData,
    pub mpe_target: MpeData,
}

/// The source sample a standing voice emits this sample, identical on every
/// channel.
pub open spec fn spec_standing_source(v: StandingWaveStimulus, sr: int) -> int {
    let env2 = v.envelope.spec_stepped(sr);
    let m2 = v.mpe.spec_smoothed(v.mpe_target, sr);
    spec_mul_q16(
        spec_mul_q16(
            spec_mul_q16(spec_sine_q16(v.phase_q32), v.amplitude_q16 as int),
            env2.level_q32 as int / 65536,
        ),
        m2.pressure_q16 as int,
    )
}

impl Stimulus for StandingWaveStimulus {
    open spec fn inv(&self) -> bool {
        &&& 0 <= self.frequency_q16 <= FREQ_MAX
        &&& self.phase_q32 < PHASE_ONE
        &&& 0 <= self.amplitude_q16 <= FX_ONE
        &&& self.envelope.inv()
        &&& self.mpe.inv()
        &&& self.mpe_target.inv()
    }

    open spec fn active(&self) -> bool {
        self.envelope.active()
    }

    open spec fn is_reset(&self) -> bool {
        &&& self.frequency_q16 == 0
        &&& self.phase_q32 == 0
        &&& self.amplitude_q16 == 0
        &&& self.envelope == (Envelope {
            state: EnvState::Idle,
            level_q32: 0,
            time_samples: 0,
        })
        &&& self.mpe == MpeData::spec_default()
        &&& self.mpe_target == MpeData::spec_default()
    }

    open spec fn spec_note_on_post(&self, post: Self, note: u8, velocity: u8, mpe: MpeData) -> bool {
        &&& post.frequency_q16 == spec_frequency_of_note(note as int)
        &&& post.amplitude_q16 == spec_amplitude_of_velocity(velocity as int)
        &&& post.mpe == mpe
        &&& post.mpe_target == mpe
        &&& post.envelope == (Envelope {
            state: EnvState::Attack,
            level_q32: 0,
            time_samples: 0,
        })
        &&& post.phase_q32 == self.phase_q32
    }

    open spec fn spec_note_off_post(&self, post: Self) -> bool {
        &&& post.envelope == self.envelope.spec_released()
        &&& post.frequency_q16 == self.frequency_q16
        &&& post.phase_q32 == self.phase_q32
        &&& post.amplitude_q16 == self.amplitude_q16
        &&& post.mpe == self.mpe
        &&& post.mpe_target == self.mpe_target
    }

    open spec fn spec_mpe_update_post(&self, post: Self, mpe: MpeData) -> bool {
        &&& post.mpe_target == mpe
        &&& post.mpe == self.mpe
        &&& post.envelope == self.envelope
        &&& post.frequency_q16 == self.frequency_q16
        &&& post.phase_q32 == self.phase_q32
        &&& post.amplitude_q16 == self.amplitude_q16
    }

    open spec fn spec_set_speed_post(&self, post: Self, wave_speed_q16: i64) -> bool {
        post == *self
    }

    open spec fn spec_post(&self, post: Self, sample_rate: u32, positions: Seq<(i64, i64)>) -> bool {
        let sri = sample_rate as int;
        &&& post.envelope == self.envelope.spec_stepped(sri)
        &&& post.mpe == self.mpe.spec_smoothed(self.mpe_target, sri)
        &&& post.mpe_target == self.mpe_target
        &&& post.phase_q32 as int
            == spec_advance_phase(self.phase_q32, self.frequency_q16 as int, sri)
        &&& post.frequency_q16 == self.frequency_q16
        &&& post.amplitude_q16 == self.amplitude_q16
    }

    open spec fn spec_out(&self, sample_rate: u32, positions: Seq<(i64, i64)>, j: int) -> int {
        spec_standing_source(*self, sample_rate as int)
    }

    fn new_idle() -> (v: Self) {
        StandingWaveStimulus {
            frequency_q16: 0,
            phase_q32: 0,
            amplitude_q16: 0,
            envelope: Envelope::new_idle(),
            mpe: MpeData::default(),
            mpe_target: MpeData::default(),
        }
    }

    fn is_active(&self) -> (b: bool) {
        self.envelope.state != EnvState::Idle
    }

    fn note_on(&mut self, note: u8, velocity: u8, mpe: MpeData) {
        self.frequency_q16 = frequency_of_note(note);
        self.amplitude_q16 = amplitude_of_velocity(velocity);
        self.mpe = mpe;
        self.mpe_target = mpe;
        self.envelope.trigger_attack();
    }

    fn note_off(&mut self) {
        self.envelope.trigger_release();
    }

    fn mpe_update(&mut self, mpe: MpeData) {
        self.mpe_target = mpe;
    }

    fn set_wave_speed(&mut self, wave_speed_q16: i64) {
    }

    fn reset(&mut self) {
        self.frequency_q16 = 0;
        self.phase_q32 = 0;
        self.amplitude_q16 = 0;
        self.envelope.reset();
        self.mpe = MpeData::default();
        self.mpe_target = MpeData::default();
    }

    fn process(&mut self, ctx: &ProcessContext<'_>, out: &mut Vec<i64>) {
        if self.envelope.state == EnvState::Idle {
            return;
        }
        self.envelope.step(ctx.sample_rate);
        self.mpe = self.mpe.smoothed(&self.mpe_target, ctx.sample_rate);
        let env16: i64 = self.envelope.level_q16();
        let s0: i64 = sine_q16(self.phase_q32);
        let s1: i64 = mul_q16(s0, self.amplitude_q16);
        let s2: i64 = mul_q16(s1, env16);
        let source: i64 = mul_q16(s2, self.mpe.pressure_q16);
        proof {
            assert(source as int == spec_standing_source(*old(self), ctx.sample_rate as int));
        }

        let mut i: usize = 0;
        while i < TRANSDUCER_COUNT
            invariant
                i <= TRANSDUCER_COUNT,
                source as int == old(self).spec_out(ctx.sample_rate,
                    ctx.transducer_positions@, 0),
                forall|j: int| #![auto] 0 <= j < TRANSDUCER_COUNT as int
                    ==> old(self).spec_out(ctx.sample_rate, ctx.transducer_positions@, j)
                        == source as int,
                -FX_ONE <= source <= FX_ONE,
                out.len() == TRANSDUCER_COUNT,
                old(out).len() == TRANSDUCER_COUNT,
                forall|j: int| 0 <= j < old(out).len()
                    ==> -ACC_LIMIT <= #[trigger] old(out)[j] <= ACC_LIMIT,
                forall|j: int| 0 <= j < i as int
                    ==> #[trigger] out[j] == old(out)[j] + source,
                forall|j: int| i as int <= j < out.len() ==> #[trigger] out[j] == old(out)[j],
            decreases TRANSDUCER_COUNT - i,
        {
            out[i] = out[i] + source;
            i = i + 1;
        }

        self.phase_q32 = advance_phase(self.phase_q32, self.frequency_q16, ctx.sample_rate);
    }
}

} // verus!

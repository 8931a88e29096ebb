//! Fixed-capacity voice pool: preconstructed voices behind an occupancy
//! bitmap, plus the note/channel bookkeeping that routes note-offs and
//! expression updates to the voices they belong to.
//!
//! Occupancy bits flip true only in `allocate` and flip false only when a
//! voice reports itself inactive during `process_all`; allocation is
//! first-free with no stealing, and a full pool refuses the note.

use vstd::prelude::*;
use crate::fixed::FX_ONE;
use crate::protocol::MpeData;
use crate::voice::{ProcessContext, Stimulus, ACC_LIMIT, MIN_WAVE_SPEED_Q16,
    MAX_WAVE_SPEED_Q16, TRANSDUCER_COUNT};

verus! {

/// The effect of releasing `(note, channel)`: bookkeeping untouched, every
/// occupied voice recorded under that note and channel released, every
/// other voice untouched.
pub open spec fn spec_note_off_effect<V: Stimulus>(
    pre: StimulusPool<V>, post: StimulusPool<V>, note: u8, channel: u8,
) -> bool {
    &&& post.active_mask@ == pre.active_mask@
    &&& post.notes@ == pre.notes@
    &&& post.channels@ == pre.channels@
    &&& post.stimuli.len() == pre.stimuli.len()
    &&& forall|i: int| 0 <= i < pre.stimuli.len()
        ==> if pre.active_mask@[i] && pre.notes@[i] == note && pre.channels@[i] == channel {
            pre.stimuli[i].spec_note_off_post(#[trigger] post.stimuli[i])
        } else {
            post.stimuli[i] == pre.stimuli[i]
        }
}

/// The effect of an expression update on `channel`: bookkeeping untouched,
/// every occupied voice on the channel gets the new target, every other
/// voice untouched.
pub open spec fn spec_mpe_effect<V: Stimulus>(
    pre: StimulusPool<V>, post: StimulusPool<V>, channel: u8, mpe: MpeData,
) -> bool {
    &&& post.active_mask@ == pre.active_mask@
    &&& post.notes@ == pre.notes@
    &&& post.channels@ == pre.channels@
    &&& post.stimuli.len() == pre.stimuli.len()
    &&& forall|i: int| 0 <= i < pre.stimuli.len()
        ==> if pre.active_mask@[i] && pre.channels@[i] == channel {
            pre.stimuli[i].spec_mpe_update_post(#[trigger] post.stimuli[i], mpe)
        } else {
            post.stimuli[i] == pre.stimuli[i]
        }
}

/// The effect of a note-on routed to this pool: either every slot was
/// taken and the pool is untouched (the note is dropped), or the first
/// free slot is claimed, its columns record the note and channel, and its
/// voice goes from the reset state through `note_on` and, when a speed is
/// given, `set_wave_speed`; no other slot changes.
pub open spec fn spec_note_on_effect<V: Stimulus>(
    pre: StimulusPool<V>,
    post: StimulusPool<V>,
    note: u8,
    velocity: u8,
    channel: u8,
    mpe: MpeData,
    wave_speed_q16: Option<i64>,
) -> bool {
    ||| (post == pre
        && forall|j: int| 0 <= j < pre.active_mask@.len() ==> #[trigger] pre.active_mask@[j])
    ||| (exists|idx: int|
        #![trigger pre.active_mask@[idx]]
        0 <= idx < pre.active_mask@.len() && !pre.active_mask@[idx]
            && (forall|j: int| 0 <= j < idx ==> #[trigger] pre.active_mask@[j])
            && post.active_mask@ == pre.active_mask@.update(idx, true)
            && post.notes@ == pre.notes@.update(idx, note)
            && post.channels@ == pre.channels@.update(idx, channel)
            && post.stimuli.len() == pre.stimuli.len()
            && (forall|j: int| 0 <= j < pre.stimuli.len() && j != idx
                ==> #[trigger] post.stimuli[j] == pre.stimuli[j])
            && (match wave_speed_q16 {
                Some(ws) => exists|v1: V, v2: V|
                    v1.is_reset()
                        && #[trigger] v1.spec_note_on_post(v2, note, velocity, mpe)
                        && v2.spec_set_speed_post(post.stimuli[idx], ws),
                None => exists|v1: V|
                    v1.is_reset()
                        && #[trigger] v1.spec_note_on_post(
                            post.stimuli[idx], note, velocity, mpe),
            }))
}

/// The contribution that the first `upto` slots of a pool add to
/// transducer `j` in one scan: each occupied, still-active voice adds its
/// `spec_out`, every other slot adds nothing.
pub open spec fn spec_pool_sum<V: Stimulus>(
    stimuli: Seq<V>,
    mask: Seq<bool>,
    sample_rate: u32,
    positions: Seq<(i64, i64)>,
    upto: int,
    j: int,
) -> int
    decreases upto,
{
    if upto <= 0 {
        0
    } else {
        spec_pool_sum(stimuli, mask, sample_rate, positions, upto - 1, j)
            + if mask[upto - 1] && stimuli[upto - 1].active() {
                stimuli[upto - 1].spec_out(sample_rate, positions, j)
            } else {
                0
            }
    }
}

/// A pool of `stimuli.len()` preallocated voices with an occupancy bitmap
/// and, per slot, the note and channel it was allocated for.
pub struct StimulusPool<V> {
    pub stimuli: Vec<V>,
    pub active_mask: Vec<bool>,
    pub notes: Vec<u8>,
    pub channels: Vec<u8>,
}

impl<V: Stimulus> StimulusPool<V> {
    /// All four columns have the same length and every voice is
    /// well-formed.
    pub open spec fn inv(&self) -> bool {
        &&& self.active_mask.len() == self.stimuli.len()
        &&& self.notes.len() == self.stimuli.len()
        &&& self.channels.len() == self.stimuli.len()
        &&& forall|i: int| 0 <= i < self.stimuli.len()
            ==> (#[trigger] self.stimuli[i]).inv()
    }

    /// Number of slots.
    pub open spec fn spec_len(&self) -> int {
        self.stimuli.len() as int
    }

    /// No slot is occupied.
    pub open spec fn all_inactive(&self) -> bool {
        forall|i: int| 0 <= i < self.active_mask@.len()
            ==> !(#[trigger] self.active_mask@[i])
    }

    /// Every voice is in the freshly-reset state, internal buffers cleared.
    pub open spec fn all_reset(&self) -> bool {
        forall|i: int| 0 <= i < self.stimuli.len()
            ==> (#[trigger] self.stimuli[i]).is_reset()
    }

    /// A pool of `n` idle voices with a cleared bitmap.
    pub fn new(n: usize) -> (r: Self)
        ensures
            r.inv(),
            r.spec_len() == n,
            r.all_inactive(),
            r.all_reset(),
    {
        let mut stimuli: Vec<V> = Vec::new();
        let mut active_mask: Vec<bool> = Vec::new();
        let mut notes: Vec<u8> = Vec::new();
        let mut channels: Vec<u8> = Vec::new();
        let mut i: usize = 0;
        while i < n
            invariant
                i == stimuli.len(),
                i == active_mask.len(),
                i == notes.len(),
                i == channels.len(),
                i <= n,
                forall|j: int| 0 <= j < stimuli.len()
                    ==> (#[trigger] stimuli[j]).inv() && stimuli[j].is_reset(),
                forall|j: int| 0 <= j < active_mask.len() ==> !(#[trigger] active_mask[j]),
            decreases n - i,
        {
            stimuli.push(V::new_idle());
            active_mask.push(false);
            notes.push(0);
            channels.push(0);
            i = i + 1;
        }
        StimulusPool { stimuli, active_mask, notes, channels }
    }

    /// Whether slot `i` is currently occupied.
    pub fn slot_active(&self, i: usize) -> (b: bool)
        requires
            self.inv(),
            i < self.spec_len(),
        ensures
            b == self.active_mask@[i as int],
    {
        self.active_mask[i]
    }

    /// Number of slots.
    pub fn len(&self) -> (n: usize)
        ensures
            n == self.spec_len(),
    {
        self.stimuli.len()
    }

    /// Claim the first free slot, reset its voice, and return its index;
    /// `None`, with the pool untouched, when every slot is occupied.  The
    /// bitmap changes in no position but the returned one.
    pub fn allocate(&mut self) -> (r: Option<usize>)
        requires
            old(self).inv(),
        ensures
            final(self).inv(),
            final(self).spec_len() == old(self).spec_len(),
            match r {
                Some(idx) => {
                    &&& idx < old(self).spec_len()
                    &&& !old(self).active_mask@[idx as int]
                    &&& forall|j: int| 0 <= j < idx ==> #[trigger] old(self).active_mask@[j]
                    &&& final(self).active_mask@ =~= old(self).active_mask@.update(idx as int, true)
                    &&& final(self).notes@ == old(self).notes@
                    &&& final(self).channels@ == old(self).channels@
                    &&& forall|j: int| 0 <= j < old(self).stimuli.len() && j != idx
                        ==> #[trigger] final(self).stimuli[j] == old(self).stimuli[j]
                    &&& !final(self).stimuli[idx as int].active()
                    &&& final(self).stimuli[idx as int].is_reset()
                },
                None => {
                    &&& *final(self) == *old(self)
                    &&& forall|j: int| 0 <= j < old(self).active_mask@.len()
                        ==> #[trigger] old(self).active_mask@[j]
                },
            },
    {
        let n: usize = self.stimuli.len();
        let mut i: usize = 0;
        while i < n
            invariant
                n == self.spec_len(),
                self.inv(),
                i <= n,
                *self == *old(self),
                forall|j: int| 0 <= j < i as int ==> #[trigger] self.active_mask@[j],
            decreases n - i,
        {
            if !self.active_mask[i] {
                self.active_mask[i] = true;
                self.stimuli[i].reset();
                return Some(i);
            }
            i = i + 1;
        }
        None
    }

    /// Start a note on an allocated slot and record its note and channel.
    pub fn note_on_slot(&mut self, idx: usize, note: u8, velocity: u8, channel: u8, mpe: MpeData)
        requires
            old(self).inv(),
            idx < old(self).spec_len(),
            note < 128,
            velocity < 128,
            mpe.inv(),
        ensures
            final(self).inv(),
            final(self).spec_len() == old(self).spec_len(),
            final(self).active_mask@ == old(self).active_mask@,
            final(self).notes@ == old(self).notes@.update(idx as int, note),
            final(self).channels@ == old(self).channels@.update(idx as int, channel),
            final(self).stimuli[idx as int].active(),
            old(self).stimuli[idx as int].spec_note_on_post(
                final(self).stimuli[idx as int], note, velocity, mpe),
            forall|j: int| 0 <= j < old(self).stimuli.len() && j != idx
                ==> #[trigger] final(self).stimuli[j] == old(self).stimuli[j],
    {
        self.notes[idx] = note;
        self.channels[idx] = channel;
        self.stimuli[idx].note_on(note, velocity, mpe);
    }

    /// Set the propagation speed of an allocated slot's voice.
    pub fn set_wave_speed_slot(&mut self, idx: usize, wave_speed_q16: i64)
        requires
            old(self).inv(),
            idx < old(self).spec_len(),
            MIN_WAVE_SPEED_Q16 <= wave_speed_q16 <= MAX_WAVE_SPEED_Q16,
        ensures
            final(self).inv(),
            final(self).spec_len() == old(self).spec_len(),
            final(self).active_mask@ == old(self).active_mask@,
            final(self).notes@ == old(self).notes@,
            final(self).channels@ == old(self).channels@,
            final(self).stimuli[idx as int].active() == old(self).stimuli[idx as int].active(),
            old(self).stimuli[idx as int].spec_set_speed_post(
                final(self).stimuli[idx as int], wave_speed_q16),
            forall|j: int| 0 <= j < old(self).stimuli.len() && j != idx
                ==> #[trigger] final(self).stimuli[j] == old(self).stimuli[j],
    {
        self.stimuli[idx].set_wave_speed(wave_speed_q16);
    }

    /// Release every occupied voice allocated for `(note, channel)`.
    pub fn note_off_matching(&mut self, note: u8, channel: u8)
        requires
            old(self).inv(),
        ensures
            final(self).inv(),
            final(self).spec_len() == old(self).spec_len(),
            spec_note_off_effect(*old(self), *final(self), note, channel),
    {
        let n: usize = self.stimuli.len();
        let mut i: usize = 0;
        while i < n
            invariant
                n == self.spec_len(),
                self.inv(),
                old(self).inv(),
                old(self).spec_len() == n,
                i <= n,
                self.active_mask@ == old(self).active_mask@,
                self.notes@ == old(self).notes@,
                self.channels@ == old(self).channels@,
                forall|k: int| 0 <= k < i as int
                    ==> if old(self).active_mask@[k] && old(self).notes@[k] == note
                            && old(self).channels@[k] == channel {
                        old(self).stimuli[k].spec_note_off_post(#[trigger] self.stimuli[k])
                    } else {
                        self.stimuli[k] == old(self).stimuli[k]
                    },
                forall|k: int| i as int <= k < n as int
                    ==> #[trigger] self.stimuli[k] == old(self).stimuli[k],
            decreases n - i,
        {
            if self.active_mask[i] && self.notes[i] == note && self.channels[i] == channel {
                self.stimuli[i].note_off();
            }
            i = i + 1;
        }
    }

    /// Deliver new expression data to every occupied voice on `channel`.
    pub fn mpe_update_channel(&mut self, channel: u8, mpe: MpeData)
        requires
            old(self).inv(),
            mpe.inv(),
        ensures
            final(self).inv(),
            final(self).spec_len() == old(self).spec_len(),
            spec_mpe_effect(*old(self), *final(self), channel, mpe),
    {
        let n: usize = self.stimuli.len();
        let mut i: usize = 0;
        while i < n
            invariant
                n == self.spec_len(),
                self.inv(),
                old(self).inv(),
                old(self).spec_len() == n,
                i <= n,
                mpe.inv(),
                self.active_mask@ == old(self).active_mask@,
                self.notes@ == old(self).notes@,
                self.channels@ == old(self).channels@,
                forall|k: int| 0 <= k < i as int
                    ==> if old(self).active_mask@[k] && old(self).channels@[k] == channel {
                        old(self).stimuli[k].spec_mpe_update_post(
                            #[trigger] self.stimuli[k], mpe)
                    } else {
                        self.stimuli[k] == old(self).stimuli[k]
                    },
                forall|k: int| i as int <= k < n as int
                    ==> #[trigger] self.stimuli[k] == old(self).stimuli[k],
            decreases n - i,
        {
            if self.active_mask[i] && self.channels[i] == channel {
                self.stimuli[i].mpe_update(mpe);
            }
            i = i + 1;
        }
    }

    /// Emergency silence: clear the bitmap and hard-reset every voice.
    pub fn panic_all(&mut self)
        requires
            old(self).inv(),
        ensures
            final(self).inv(),
            final(self).spec_len() == old(self).spec_len(),
            final(self).all_inactive(),
            final(self).all_reset(),
    {
        let n: usize = self.stimuli.len();
        let mut i: usize = 0;
        while i < n
            invariant
                n == self.spec_len(),
                self.inv(),
                old(self).inv(),
                old(self).spec_len() == n,
                i <= n,
                forall|j: int| 0 <= j < i as int ==> !self.active_mask@[j],
                forall|j: int| 0 <= j < i as int
                    ==> (#[trigger] self.stimuli[j]).is_reset(),
            decreases n - i,
        {
            self.active_mask[i] = false;
            self.stimuli[i].reset();
            i = i + 1;
        }
    }

    /// Scan the pool once: slots whose voice has gone idle give their bit
    /// back; every other occupied voice renders one sample into `out`.
    /// Occupancy never grows, each voice adds at most one per transducer,
    /// and an entirely idle pool leaves `out` untouched.
    pub fn process_all(&mut self, ctx: &ProcessContext<'_>, out: &mut Vec<i64>)
        requires
            old(self).inv(),
            ctx.inv(),
            old(out).len() == TRANSDUCER_COUNT,
            forall|j: int| 0 <= j < old(out).len()
                ==> -ACC_LIMIT + old(self).spec_len() * FX_ONE
                    <= #[trigger] old(out)[j]
                    <= ACC_LIMIT - old(self).spec_len() * FX_ONE,
        ensures
            final(self).inv(),
            final(self).spec_len() == old(self).spec_len(),
            final(self).notes@ == old(self).notes@,
            final(self).channels@ == old(self).channels@,
            final(out).len() == TRANSDUCER_COUNT,
            forall|j: int| 0 <= j < final(out).len()
                ==> old(out)[j] - old(self).spec_len() * FX_ONE
                    <= #[trigger] final(out)[j]
                    <= old(out)[j] + old(self).spec_len() * FX_ONE,
            forall|i: int| 0 <= i < final(self).active_mask@.len()
                ==> #[trigger] final(self).active_mask@[i]
                    == (old(self).active_mask@[i] && old(self).stimuli[i].active()),
            forall|i: int| 0 <= i < old(self).stimuli.len()
                ==> if old(self).active_mask@[i] && old(self).stimuli[i].active() {
                    old(self).stimuli[i].spec_post(#[trigger] final(self).stimuli[i],
                        ctx.sample_rate, ctx.transducer_positions@)
                } else {
                    final(self).stimuli[i] == old(self).stimuli[i]
                },
            forall|j: int| 0 <= j < final(out).len()
                ==> #[trigger] final(out)[j] == old(out)[j]
                    + spec_pool_sum(old(self).stimuli@, old(self).active_mask@,
                        ctx.sample_rate, ctx.transducer_positions@,
                        old(self).spec_len(), j),
            old(self).all_inactive() ==> final(out)@ == old(out)@,
    {
        let n: usize = self.stimuli.len();
        let mut i: usize = 0;
        while i < n
            invariant
                n == self.spec_len(),
                self.inv(),
                old(self).inv(),
                old(self).spec_len() == n,
                ctx.inv(),
                i <= n,
                self.spec_len() == old(self).spec_len(),
                out.len() == TRANSDUCER_COUNT,
                old(out).len() == TRANSDUCER_COUNT,
                forall|j: int| 0 <= j < old(out).len()
                    ==> -ACC_LIMIT + n * FX_ONE
                        <= #[trigger] old(out)[j]
                        <= ACC_LIMIT - n * FX_ONE,
                forall|j: int| 0 <= j < out.len()
                    ==> old(out)[j] - i as int * FX_ONE
                        <= #[trigger] out[j]
                        <= old(out)[j] + i as int * FX_ONE,
                self.notes@ == old(self).notes@,
                self.channels@ == old(self).channels@,
                forall|k: int| 0 <= k < i as int
                    ==> #[trigger] self.active_mask@[k]
                        == (old(self).active_mask@[k] && old(self).stimuli[k].active()),
                forall|k: int| i as int <= k < n as int
                    ==> #[trigger] self.active_mask@[k] == old(self).active_mask@[k],
                forall|k: int| i as int <= k < n as int
                    ==> #[trigger] self.stimuli[k] == old(self).stimuli[k],
                forall|k: int| 0 <= k < i as int
                    ==> if old(self).active_mask@[k] && old(self).stimuli[k].active() {
                        old(self).stimuli[k].spec_post(#[trigger] self.stimuli[k],
                            ctx.sample_rate, ctx.transducer_positions@)
                    } else {
                        self.stimuli[k] == old(self).stimuli[k]
                    },
                forall|j: int| 0 <= j < out.len()
                    ==> #[trigger] out[j] == old(out)[j]
                        + spec_pool_sum(old(self).stimuli@, old(self).active_mask@,
                            ctx.sample_rate, ctx.transducer_positions@, i as int, j),
                old(self).all_inactive() ==> out@ == old(out)@,
            decreases n - i,
        {
            if self.active_mask[i] {
                let active: bool = self.stimuli[i].is_active();
                if !active {
                    self.active_mask[i] = false;
                } else {
                    self.stimuli[i].process(ctx, out);
                }
            }
            i = i + 1;
        }
    }
}

} // verus!

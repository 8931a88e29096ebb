//! The linear attack/sustain/release envelope shared by both voice models.
//!
//! Levels are Q32 fixed point (`ENV_ONE` is 1.0).  Attack rises at 10 per
//! second (100 ms to unity), release falls at 2 per second (500 ms to zero);
//! the per-sample increments are rounded up so that neither stage overruns
//! its nominal duration.

use vstd::prelude::*;
use crate::fixed::ENV_ONE;

verus! {

/// Largest sample rate the engine accepts, in Hz.
pub const MAX_SAMPLE_RATE: u32 = 1048576;

/// Attack rate in units of envelope level per second.
pub const ATTACK_RATE: u64 = 10;

/// Release rate in units of envelope level per second.
pub const RELEASE_RATE: u64 = 2;

/// The envelope state machine:
/// `Idle -> Attack -> Sustain -> Release -> Idle`,
/// with Release reachable from Attack as well.
#[derive(Clone, Copy, PartialEq, Eq, Structural, Debug)]
pub enum EnvState {
    Idle,
    Attack,
    Sustain,
    Release,
}

/// Envelope level generator of one voice.
#[derive(Clone, Copy, Debug)]
pub struct Envelope {
    pub state: EnvState,
    pub level_q32: u64,
    pub time_samples: u64,
}

/// The per-sample attack increment at `sr` Hz: `ATTACK_RATE / sr` of full
/// level, rounded up so the stage never overruns its nominal duration.
pub open spec fn spec_attack_inc(sr: int) -> int {
    (ATTACK_RATE as int * ENV_ONE as int + sr - 1) / sr
}

/// The per-sample release decrement at `sr` Hz, rounded up likewise.
pub open spec fn spec_release_inc(sr: int) -> int {
    (RELEASE_RATE as int * ENV_ONE as int + sr - 1) / sr
}

impl Envelope {
    /// The level is at most one, zero when idle, exactly one while
    /// sustaining.
    pub open spec fn inv(&self) -> bool {
        &&& self.level_q32 <= ENV_ONE
        &&& self.state == EnvState::Idle ==> self.level_q32 == 0
        &&& self.state == EnvState::Sustain ==> self.level_q32 == ENV_ONE
    }

    /// A voice is active while its envelope has not returned to `Idle`.
    pub open spec fn active(&self) -> bool {
        self.state != EnvState::Idle
    }

    /// The exact state after one sample at `sr` Hz: Attack climbs by
    /// `spec_attack_inc` and saturates into Sustain, Release falls by
    /// `spec_release_inc` and bottoms out into Idle.
    pub open spec fn spec_stepped(self, sr: int) -> Envelope {
        let t = if self.time_samples < u64::MAX {
            (self.time_samples + 1) as u64
        } else {
            u64::MAX
        };
        match self.state {
            EnvState::Idle => self,
            EnvState::Attack => {
                if self.level_q32 + spec_attack_inc(sr) >= ENV_ONE {
                    Envelope { state: EnvState::Sustain, level_q32: ENV_ONE, time_samples: t }
                } else {
                    Envelope {
                        state: EnvState::Attack,
                        level_q32: (self.level_q32 + spec_attack_inc(sr)) as u64,
                        time_samples: t,
                    }
                }
            },
            EnvState::Sustain => {
                Envelope {
                    state: EnvState::Sustain,
                    level_q32: ENV_ONE,
                    time_samples: self.time_samples,
                }
            },
            EnvState::Release => {
                if self.level_q32 <= spec_release_inc(sr) {
                    Envelope { state: EnvState::Idle, level_q32: 0, time_samples: t }
                } else {
                    Envelope {
                        state: EnvState::Release,
                        level_q32: (self.level_q32 - spec_release_inc(sr)) as u64,
                        time_samples: t,
                    }
                }
            },
        }
    }

    /// The exact state after a note-off: a non-idle envelope restarts the
    /// release ramp from full level, an idle one is untouched.
    pub open spec fn spec_released(self) -> Envelope {
        if self.state == EnvState::Idle {
            self
        } else {
            Envelope { state: EnvState::Release, level_q32: ENV_ONE, time_samples: 0 }
        }
    }

    /// A fresh envelope: idle at level zero.
    pub fn new_idle() -> (r: Self)
        ensures
            r.inv(),
            !r.active(),
            r == (Envelope { state: EnvState::Idle, level_q32: 0, time_samples: 0 }),
    {
        Envelope { state: EnvState::Idle, level_q32: 0, time_samples: 0 }
    }

    /// Note-on: restart the attack stage from level zero.
    pub fn trigger_attack(&mut self)
        ensures
            final(self).inv(),
            *final(self) == (Envelope {
                state: EnvState::Attack,
                level_q32: 0,
                time_samples: 0,
            }),
            final(self).active(),
    {
        self.state = EnvState::Attack;
        self.level_q32 = 0;
        self.time_samples = 0;
    }

    /// Note-off: from any non-idle state enter Release, which ramps down
    /// from full level; an idle envelope stays idle.
    pub fn trigger_release(&mut self)
        requires
            old(self).inv(),
        ensures
            final(self).inv(),
            *final(self) == old(self).spec_released(),
            final(self).active() == old(self).active(),
    {
        if self.state != EnvState::Idle {
            self.state = EnvState::Release;
            self.level_q32 = ENV_ONE;
            self.time_samples = 0;
        }
    }

    /// Hard reset to idle.
    pub fn reset(&mut self)
        ensures
            final(self).inv(),
            !final(self).active(),
            *final(self) == (Envelope {
                state: EnvState::Idle,
                level_q32: 0,
                time_samples: 0,
            }),
    {
        self.state = EnvState::Idle;
        self.level_q32 = 0;
        self.time_samples = 0;
    }

    /// Advance one sample.  Within Attack the level never decreases and
    /// strictly increases until it saturates at one, where the state moves
    /// to Sustain; within Release it never increases and strictly decreases
    /// until it reaches zero, where the state returns to Idle.
    pub fn step(&mut self, sample_rate: u32)
        requires
            old(self).inv(),
            1 <= sample_rate <= MAX_SAMPLE_RATE,
        ensures
            final(self).inv(),
            *final(self) == old(self).spec_stepped(sample_rate as int),
            old(self).state == EnvState::Idle ==> *final(self) == *old(self),
            old(self).state == EnvState::Sustain ==> final(self).state == EnvState::Sustain
                && final(self).level_q32 == ENV_ONE,
            old(self).state == EnvState::Attack ==> {
                &&& final(self).level_q32 >= old(self).level_q32
                &&& final(self).level_q32 > old(self).level_q32
                    || final(self).level_q32 == ENV_ONE
                &&& (final(self).state == EnvState::Attack
                    || final(self).state == EnvState::Sustain)
                &&& (final(self).state == EnvState::Sustain
                    <==> final(self).level_q32 == ENV_ONE)
            },
            old(self).state == EnvState::Release ==> {
                &&& final(self).level_q32 <= old(self).level_q32
                &&& final(self).level_q32 < old(self).level_q32
                    || final(self).level_q32 == 0
                &&& (final(self).state == EnvState::Release
                    || final(self).state == EnvState::Idle)
                &&& (final(self).state == EnvState::Idle
                    <==> final(self).level_q32 == 0)
            },
            final(self).active() ==> old(self).active(),
    {
        let sr: u64 = sample_rate as u64;
        match self.state {
            EnvState::Idle => {},
            EnvState::Attack => {
                let inc: u64 = (ATTACK_RATE * ENV_ONE + (sr - 1)) / sr;
                proof {
                    assert(inc >= 1) by {
                        assert(ATTACK_RATE * ENV_ONE + (sr - 1) >= sr);
                        vstd::arithmetic::div_mod::lemma_div_is_ordered(
                            sr as int,
                            (ATTACK_RATE * ENV_ONE + (sr - 1)) as int,
                            sr as int,
                        );
                        vstd::arithmetic::div_mod::lemma_div_by_multiple(1, sr as int);
                    };
                }
                if inc >= ENV_ONE || self.level_q32 >= ENV_ONE - inc {
                    self.level_q32 = ENV_ONE;
                    self.state = EnvState::Sustain;
                } else {
                    self.level_q32 = self.level_q32 + inc;
                }
                if self.time_samples < u64::MAX {
                    self.time_samples = self.time_samples + 1;
                }
            },
            EnvState::Sustain => {
                self.level_q32 = ENV_ONE;
            },
            EnvState::Release => {
                let inc: u64 = (RELEASE_RATE * ENV_ONE + (sr - 1)) / sr;
                proof {
                    assert(inc >= 1) by {
                        assert(RELEASE_RATE * ENV_ONE + (sr - 1) >= sr);
                        vstd::arithmetic::div_mod::lemma_div_is_ordered(
                            sr as int,
                            (RELEASE_RATE * ENV_ONE + (sr - 1)) as int,
                            sr as int,
                        );
                        vstd::arithmetic::div_mod::lemma_div_by_multiple(1, sr as int);
                    };
                }
                if self.level_q32 <= inc {
                    self.level_q32 = 0;
                    self.state = EnvState::Idle;
                } else {
                    self.level_q32 = self.level_q32 - inc;
                }
                if self.time_samples < u64::MAX {
                    self.time_samples = self.time_samples + 1;
                }
            },
        }
    }

    /// The envelope after `n` samples at `sr` Hz.
    pub open spec fn spec_stepped_n(self, sr: int, n: nat) -> Envelope
        decreases n,
    {
        if n == 0 {
            self
        } else {
            self.spec_stepped(sr).spec_stepped_n(sr, (n - 1) as nat)
        }
    }

    /// The current level as a Q16 gain in `[0, FX_ONE]`.
    pub fn level_q16(&self) -> (r: i64)
        requires
            self.inv(),
        ensures
            0 <= r <= crate::fixed::FX_ONE,
            r == self.level_q32 as int / 65536,
            self.state == EnvState::Sustain ==> r == crate::fixed::FX_ONE,
            self.state == EnvState::Idle ==> r == 0,
    {
        (self.level_q32 / 65536) as i64
    }
}

/// An idle envelope at level zero stays exactly as it is, for any number
/// of samples.
pub proof fn lemma_idle_is_fixed(env: Envelope, sr: int, n: nat)
    requires
        env.state == EnvState::Idle,
    ensures
        env.spec_stepped_n(sr, n) == env,
    decreases n,
{
    if n > 0 {
        lemma_idle_is_fixed(env, sr, (n - 1) as nat);
    }
}

/// Release completes: a releasing envelope falls by `spec_release_inc` per
/// sample, so after any `n` samples covering its level it is idle at zero.
/// At the nominal rate of 2 per second this is at most 500 ms of samples:
/// at 48 kHz, `n == 24000` covers a full level.
pub proof fn lemma_release_completes(env: Envelope, sr: int, n: nat)
    requires
        env.inv(),
        env.state == EnvState::Release,
        1 <= sr <= MAX_SAMPLE_RATE,
        n >= 1,
        n * spec_release_inc(sr) >= env.level_q32,
    ensures
        env.spec_stepped_n(sr, n).state == EnvState::Idle,
        env.spec_stepped_n(sr, n).level_q32 == 0,
    decreases n,
{
    let stepped = env.spec_stepped(sr);
    if env.level_q32 <= spec_release_inc(sr) {
        lemma_idle_is_fixed(stepped, sr, (n - 1) as nat);
    } else {
        assert((n - 1) * spec_release_inc(sr) >= stepped.level_q32) by (nonlinear_arith)
            requires
                n >= 1,
                n * spec_release_inc(sr) >= env.level_q32,
                stepped.level_q32 == env.level_q32 - spec_release_inc(sr),
                spec_release_inc(sr) >= 0;
        lemma_release_completes(stepped, sr, (n - 1) as nat);
    }
}

} // verus!

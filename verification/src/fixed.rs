//! Q16 fixed-point scalar arithmetic: the sample and parameter domain of the
//! whole engine.  A value of `FX_ONE` stands for 1.0; samples, amplitudes and
//! expression values live in `[-FX_ONE, FX_ONE]`.

use vstd::prelude::*;

verus! {

/// 1.0 in Q16 fixed point.
pub const FX_ONE: i64 = 65536;

/// One full oscillator cycle: phases live in `[0, PHASE_ONE)` (Q32).
pub const PHASE_ONE: u64 = 0x1_0000_0000;

/// Half a cycle, the sign boundary of the sine wave.
pub const PHASE_HALF: u64 = 0x8000_0000;

/// 1.0 of envelope level in Q32 fixed point.
pub const ENV_ONE: u64 = 0x1_0000_0000;

/// Product of two Q16 values, truncated toward zero, as the executable
/// multiply computes it for `b >= 0`.
pub open spec fn spec_mul_q16(a: int, b: int) -> int {
    if a >= 0 {
        (a * b) / (FX_ONE as int)
    } else {
        -(((-a) * b) / (FX_ONE as int))
    }
}

proof fn lemma_mul_q16_bound(m: int, b: int)
    by (nonlinear_arith)
    requires
        0 <= m <= FX_ONE as int,
        0 <= b <= FX_ONE as int,
    ensures
        0 <= (m * b) / (FX_ONE as int) <= FX_ONE as int,
{
}

/// Q16 multiply of a signed sample `a` by a non-negative gain `b`, both at
/// most one; the result never leaves `[-FX_ONE, FX_ONE]`.
pub fn mul_q16(a: i64, b: i64) -> (r: i64)
    requires
        -FX_ONE <= a <= FX_ONE,
        0 <= b <= FX_ONE,
    ensures
        r == spec_mul_q16(a as int, b as int),
        -FX_ONE <= r <= FX_ONE,
{
    if a >= 0 {
        proof {
            assert((a as u64) * (b as u64) <= 0x1_0000_0000u64) by (nonlinear_arith)
                requires a as u64 <= 65536, b as u64 <= 65536;
            lemma_mul_q16_bound(a as int, b as int);
        }
        let p: u64 = (a as u64) * (b as u64) / 65536;
        p as i64
    } else {
        let m: u64 = (-a) as u64;
        proof {
            assert(m * (b as u64) <= 0x1_0000_0000u64) by (nonlinear_arith)
                requires m <= 65536, b as u64 <= 65536;
            lemma_mul_q16_bound(m as int, b as int);
        }
        let p: u64 = m * (b as u64) / 65536;
        -(p as i64)
    }
}

/// The hard limiter: `x` clamped to `[-FX_ONE, FX_ONE]`.
pub open spec fn spec_clamp_unit(x: int) -> int {
    if x < -(FX_ONE as int) {
        -(FX_ONE as int)
    } else if x > FX_ONE as int {
        FX_ONE as int
    } else {
        x
    }
}

/// Clamp a summed sample to `[-FX_ONE, FX_ONE]`.
pub fn clamp_unit(x: i64) -> (r: i64)
    ensures
        r == spec_clamp_unit(x as int),
        -FX_ONE <= r <= FX_ONE,
{
    if x < -FX_ONE {
        -FX_ONE
    } else if x > FX_ONE {
        FX_ONE
    } else {
        x
    }
}

/// Distance attenuation of a sample: `y * FX_ONE / denom`, truncated toward
/// zero, for a divisor of at least one.
pub open spec fn spec_attenuate_q16(y: int, denom: int) -> int {
    if y >= 0 {
        (y * FX_ONE as int) / denom
    } else {
        -(((-y) * FX_ONE as int) / denom)
    }
}

proof fn lemma_attenuate_bound(m: int, denom: int)
    requires
        0 <= m <= FX_ONE as int,
        FX_ONE as int <= denom,
    ensures
        0 <= (m * FX_ONE as int) / denom <= m,
{
    assert(m * FX_ONE as int <= m * denom) by (nonlinear_arith)
        requires 0 <= m, FX_ONE as int <= denom;
    vstd::arithmetic::div_mod::lemma_div_is_ordered(
        m * FX_ONE as int,
        m * denom,
        denom,
    );
    vstd::arithmetic::div_mod::lemma_div_by_multiple(m, denom);
}

/// Scale a bounded sample by `FX_ONE / denom` for `denom >= FX_ONE`: the
/// result never grows in magnitude.
pub fn attenuate_q16(y: i64, denom: i64) -> (r: i64)
    requires
        -FX_ONE <= y <= FX_ONE,
        FX_ONE <= denom <= 0x8000_0000,
    ensures
        r == spec_attenuate_q16(y as int, denom as int),
        -FX_ONE <= r <= FX_ONE,
        y >= 0 ==> 0 <= r <= y,
        y < 0 ==> y <= r <= 0,
{
    if y >= 0 {
        proof {
            lemma_attenuate_bound(y as int, denom as int);
        }
        ((y as u64) * 65536 / (denom as u64)) as i64
    } else {
        let m: u64 = (-y) as u64;
        proof {
            lemma_attenuate_bound(m as int, denom as int);
        }
        -((m * 65536 / (denom as u64)) as i64)
    }
}

/// The integer square root of a non-negative number: the unique `r >= 0`
/// with `r * r <= n < (r + 1) * (r + 1)`.
pub open spec fn spec_isqrt(n: int) -> int {
    choose|r: int| #![trigger r * r] 0 <= r && r * r <= n && n < (r + 1) * (r + 1)
}

proof fn lemma_isqrt_unique(n: int, r: int)
    requires
        0 <= r,
        r * r <= n,
        n < (r + 1) * (r + 1),
    ensures
        spec_isqrt(n) == r,
{
    let c = choose|c: int| #![trigger c * c] 0 <= c && c * c <= n && n < (c + 1) * (c + 1);
    assert(0 <= r && r * r <= n && n < (r + 1) * (r + 1));
    assert(0 <= c && c * c <= n && n < (c + 1) * (c + 1));
    assert(c == r) by (nonlinear_arith)
        requires
            0 <= r, r * r <= n, n < (r + 1) * (r + 1),
            0 <= c, c * c <= n, n < (c + 1) * (c + 1);
}

/// Integer square root: the greatest `r` with `r * r <= n`.
pub fn isqrt_u64(n: u64) -> (r: u64)
    requires
        n < 0x4000_0000_0000_0000,
    ensures
        r * r <= n,
        n < (r + 1) * (r + 1),
        r as int == spec_isqrt(n as int),
{
    let mut lo: u64 = 0;
    let mut hi: u64 = 0x8000_0000;
    proof {
        assert((0x8000_0000u64 * 0x8000_0000u64) as int == 0x4000_0000_0000_0000int)
            by (nonlinear_arith);
    }
    while lo + 1 < hi
        invariant
            lo < hi <= 0x8000_0000,
            lo * lo <= n,
            n < hi * hi,
        decreases hi - lo,
    {
        let mid: u64 = lo + (hi - lo) / 2;
        proof {
            assert(mid < 0x8000_0000);
            assert(mid * mid < 0x4000_0000_0000_0000) by (nonlinear_arith)
                requires mid < 0x8000_0000u64;
        }
        if mid * mid <= n {
            lo = mid;
        } else {
            hi = mid;
        }
    }
    proof {
        lemma_isqrt_unique(n as int, lo as int);
    }
    lo
}

/// The smoothing gain of the one-pole expression follower: a 20 ms time
/// constant, so `FX_ONE * dt / 0.02` per sample, saturated at one.
pub open spec fn spec_smooth_k(sr: int) -> int {
    if 3276800int / sr >= FX_ONE as int {
        FX_ONE as int
    } else {
        3276800int / sr
    }
}

/// One step of the one-pole follower: move `cur` toward `tgt` by the
/// fraction `spec_smooth_k(sr) / FX_ONE` of the gap, rounded away from
/// `cur` so that a nonzero gap always closes.
pub open spec fn spec_smooth_toward(cur: int, tgt: int, sr: int) -> int {
    let k = spec_smooth_k(sr);
    if tgt >= cur {
        cur + ((tgt - cur) * k + FX_ONE as int - 1) / (FX_ONE as int)
    } else {
        cur - ((cur - tgt) * k + FX_ONE as int - 1) / (FX_ONE as int)
    }
}

proof fn lemma_smooth_step_bound(m: int, k: int)
    requires
        0 <= m <= 2 * FX_ONE as int,
        1 <= k <= FX_ONE as int,
    ensures
        0 <= (m * k + FX_ONE as int - 1) / (FX_ONE as int) <= m,
        m > 0 ==> (m * k + FX_ONE as int - 1) / (FX_ONE as int) >= 1,
{
    assert(m * k <= m * 65536 && m * 1 <= m * k) by (nonlinear_arith)
        requires 0 <= m, 1 <= k <= 65536;
    vstd::arithmetic::div_mod::lemma_div_is_ordered(
        m * k + 65535,
        m * 65536 + 65535,
        65536,
    );
    assert((m * 65536 + 65535) / 65536 == m) by {
        vstd::arithmetic::div_mod::lemma_fundamental_div_mod_converse(
            m * 65536 + 65535, 65536, m, 65535,
        );
    };
    if m > 0 {
        vstd::arithmetic::div_mod::lemma_div_is_ordered(65536, m * k + 65535, 65536);
        vstd::arithmetic::div_mod::lemma_div_by_multiple(1, 65536);
    }
}

/// Advance the one-pole expression follower one sample.  The result lies
/// between `cur` and `tgt`, and strictly approaches a distinct `tgt`.
pub fn smooth_toward(cur: i64, tgt: i64, sr: u32) -> (r: i64)
    requires
        -FX_ONE <= cur <= FX_ONE,
        -FX_ONE <= tgt <= FX_ONE,
        1 <= sr <= 0x10_0000,
    ensures
        r as int == spec_smooth_toward(cur as int, tgt as int, sr as int),
        cur <= tgt ==> cur <= r <= tgt,
        tgt <= cur ==> tgt <= r <= cur,
        cur != tgt ==> r != cur,
{
    let k: u64 = {
        let k0: u64 = 3276800 / (sr as u64);
        if k0 >= 65536 { 65536 } else { k0 }
    };
    proof {
        assert(3276800int / (sr as int) >= 3int) by {
            vstd::arithmetic::div_mod::lemma_div_is_ordered_by_denominator(
                3276800, sr as int, 0x10_0000,
            );
        };
    }
    if tgt >= cur {
        let m: u64 = (tgt - cur) as u64;
        proof {
            lemma_smooth_step_bound(m as int, k as int);
        }
        let step: u64 = (m * k + 65535) / 65536;
        cur + step as i64
    } else {
        let m: u64 = (cur - tgt) as u64;
        proof {
            lemma_smooth_step_bound(m as int, k as int);
        }
        let step: u64 = (m * k + 65535) / 65536;
        cur - step as i64
    }
}

/// Largest oscillator frequency the engine represents, in Q16 Hz.
pub const FREQ_MAX: i64 = 0x4000_0000;

/// The phase after one sample at `freq` Q16 Hz and `sr` Hz: advanced by
/// `freq / sr` of a cycle and wrapped into `[0, PHASE_ONE)`.
pub open spec fn spec_advance_phase(phase: u64, freq: int, sr: int) -> int {
    let inc = (freq * PHASE_ONE as int) / (sr * FX_ONE as int) % (PHASE_ONE as int);
    (phase + inc) % (PHASE_ONE as int)
}

/// Advance an oscillator phase by one sample, wrapping modulo one cycle.
pub fn advance_phase(phase: u64, freq: i64, sr: u32) -> (p: u64)
    requires
        phase < PHASE_ONE,
        0 <= freq <= FREQ_MAX,
        1 <= sr <= 0x10_0000,
    ensures
        p as int == spec_advance_phase(phase, freq as int, sr as int),
        p < PHASE_ONE,
{
    let num: u64 = (freq as u64) * PHASE_ONE;
    let den: u64 = (sr as u64) * 65536;
    let inc: u64 = (num / den) % PHASE_ONE;
    (phase + inc) % PHASE_ONE
}

/// Positive half-wave of the parabolic sine approximation, in Q16:
/// `4 q (FX_ONE - q) / FX_ONE` for `q` in `[0, FX_ONE]`.
pub open spec fn spec_half_sine(q: int) -> int {
    4 * q * (FX_ONE as int - q) / (FX_ONE as int)
}

proof fn lemma_half_sine_bound(q: int)
    by (nonlinear_arith)
    requires
        0 <= q <= FX_ONE as int,
    ensures
        0 <= 4 * q * (FX_ONE as int - q) <= (FX_ONE as int) * (FX_ONE as int),
{
}

/// Sine of a Q32 phase, in Q16: a parabolic approximation with the exact
/// zero crossings, peak `FX_ONE` and odd symmetry of the true sine.
pub open spec fn spec_sine_q16(phase: u64) -> int {
    if phase < PHASE_HALF {
        spec_half_sine((phase as int) / 32768)
    } else {
        -spec_half_sine((phase as int - PHASE_HALF as int) / 32768)
    }
}

/// Oscillator core: sine of the current phase, bounded by one.
pub fn sine_q16(phase: u64) -> (r: i64)
    requires
        phase < PHASE_ONE,
    ensures
        r == spec_sine_q16(phase),
        -FX_ONE <= r <= FX_ONE,
{
    if phase < PHASE_HALF {
        let q: u64 = phase / 32768;
        assert(q <= FX_ONE as u64);
        proof {
            lemma_half_sine_bound(q as int);
        }
        let p: u64 = 4 * q * (65536 - q) / 65536;
        p as i64
    } else {
        let q: u64 = (phase - PHASE_HALF) / 32768;
        assert(q <= FX_ONE as u64);
        proof {
            lemma_half_sine_bound(q as int);
        }
        let p: u64 = 4 * q * (65536 - q) / 65536;
        -(p as i64)
    }
}

} // verus!

//! Circular fractional delay line: one per transducer in a propagating-wave
//! voice.  Each call writes the current source sample at the cursor, reads
//! the sample a (possibly fractional) delay behind it with linear
//! interpolation, and advances the cursor by one.

use vstd::prelude::*;
use crate::fixed::FX_ONE;

verus! {

/// Buffer length: about 100 ms at 48 kHz.
pub const MAX_DELAY_SAMPLES: usize = 4800;

/// Truncating division of a Q16-scaled numerator by `FX_ONE`, as the
/// executable code computes it on magnitudes.
pub open spec fn spec_div_q16_trunc(num: int) -> int {
    if num >= 0 {
        num / (FX_ONE as int)
    } else {
        -((-num) / (FX_ONE as int))
    }
}

/// Linear interpolation between the two taps around a fractional read
/// position: `a0` one sample older than `a1`, blended by `frac / FX_ONE`.
pub open spec fn spec_interp(a0: int, a1: int, frac: int) -> int {
    spec_div_q16_trunc(a0 * frac + a1 * (FX_ONE as int - frac))
}

/// What a read at delay `d_int + frac / FX_ONE` behind `cursor` yields from
/// buffer contents `buf` (the write of the current input has already
/// happened).
pub open spec fn spec_delay_read(buf: Seq<i64>, cursor: int, d_int: int, frac: int) -> int {
    let n = MAX_DELAY_SAMPLES as int;
    let i1 = (cursor + n - (d_int % n)) % n;
    let i0 = (i1 + n - 1) % n;
    spec_interp(buf[i0] as int, buf[i1] as int, frac)
}

/// One combined write-then-read-then-advance step of the delay line model:
/// returns the updated buffer, the new cursor, and the interpolated output.
pub open spec fn spec_delay_step(
    buf: Seq<i64>,
    cursor: int,
    input: i64,
    d_int: int,
    frac: int,
) -> (Seq<i64>, int, int) {
    let n = MAX_DELAY_SAMPLES as int;
    let wbuf = buf.update(cursor, input);
    (wbuf, (cursor + 1) % n, spec_delay_read(wbuf, cursor, d_int, frac))
}

/// A circular buffer of bounded Q16 samples with an integer write cursor.
#[derive(Clone, Debug)]
pub struct DelayLine {
    pub buffer: Vec<i64>,
    pub cursor: usize,
}

impl DelayLine {
    /// Full-length buffer, in-range cursor, every stored sample bounded.
    pub open spec fn inv(&self) -> bool {
        &&& self.buffer.len() == MAX_DELAY_SAMPLES
        &&& self.cursor < MAX_DELAY_SAMPLES
        &&& forall|i: int| 0 <= i < self.buffer.len()
            ==> -FX_ONE <= #[trigger] self.buffer[i] <= FX_ONE
    }

    /// All stored samples are zero: a freshly built or reset line.
    pub open spec fn silent(&self) -> bool {
        forall|i: int| 0 <= i < self.buffer.len() ==> #[trigger] self.buffer[i] == 0
    }

    /// A zeroed line with the cursor at the start.
    pub fn new() -> (r: Self)
        ensures
            r.inv(),
            r.silent(),
            r.cursor == 0,
    {
        let mut buffer: Vec<i64> = Vec::new();
        let mut i: usize = 0;
        while i < MAX_DELAY_SAMPLES
            invariant
                i == buffer.len(),
                i <= MAX_DELAY_SAMPLES,
                forall|j: int| 0 <= j < buffer.len() ==> #[trigger] buffer[j] == 0,
            decreases MAX_DELAY_SAMPLES - i,
        {
            buffer.push(0);
            i = i + 1;
        }
        DelayLine { buffer, cursor: 0 }
    }

    /// Zero the buffer and rewind the cursor.
    pub fn reset(&mut self)
        requires
            old(self).inv(),
        ensures
            final(self).inv(),
            final(self).silent(),
            final(self).cursor == 0,
    {
        let mut i: usize = 0;
        while i < MAX_DELAY_SAMPLES
            invariant
                self.buffer.len() == MAX_DELAY_SAMPLES,
                i <= MAX_DELAY_SAMPLES,
                forall|j: int| 0 <= j < i ==> #[trigger] self.buffer[j] == 0,
                forall|j: int| 0 <= j < self.buffer.len()
                    ==> -FX_ONE <= #[trigger] self.buffer[j] <= FX_ONE,
            decreases MAX_DELAY_SAMPLES - i,
        {
            self.buffer[i] = 0;
            i = i + 1;
        }
        self.cursor = 0;
    }

    /// Write `input` at the cursor, read `delay_q16 / FX_ONE` samples behind
    /// it with linear interpolation, then advance the cursor by one.  The
    /// delay wraps modulo the buffer length; the output is bounded by one.
    pub fn write_and_read(&mut self, input: i64, delay_q16: u64) -> (out: i64)
        requires
            old(self).inv(),
            -FX_ONE <= input <= FX_ONE,
        ensures
            final(self).inv(),
            ({
                let (sbuf, scur, sout) = spec_delay_step(
                    old(self).buffer@,
                    old(self).cursor as int,
                    input,
                    (delay_q16 / 65536) as int,
                    (delay_q16 % 65536) as int,
                );
                &&& final(self).buffer@ == sbuf
                &&& final(self).cursor as int == scur
                &&& out as int == sout
            }),
            -FX_ONE <= out <= FX_ONE,
    {
        let d_int: usize = ((delay_q16 / 65536) % 4800) as usize;
        let frac: i64 = (delay_q16 % 65536) as i64;

        self.buffer[self.cursor] = input;

        let i1: usize = (self.cursor + 4800 - d_int) % 4800;
        let i0: usize = (i1 + 4799) % 4800;
        let a0: i64 = self.buffer[i0];
        let a1: i64 = self.buffer[i1];

        proof {
            assert(-(65536 * 65536) <= a0 * frac <= 65536 * 65536
                && -(65536 * 65536) <= a1 * (65536 - frac) <= 65536 * 65536
                && a0 * frac + a1 * (65536 - frac) <= 65536 * 65536
                && a0 * frac + a1 * (65536 - frac) >= -(65536 * 65536)) by (nonlinear_arith)
                requires
                    -65536 <= a0 <= 65536,
                    -65536 <= a1 <= 65536,
                    0 <= frac < 65536;
        }
        let num: i64 = a0 * frac + a1 * (65536 - frac);
        let out: i64 = if num >= 0 {
            ((num as u64) / 65536) as i64
        } else {
            -(((-num) as u64 / 65536) as i64)
        };

        self.cursor = if self.cursor + 1 == 4800 { 0 } else { self.cursor + 1 };
        out
    }
}

/// A buffer-length sequence of zero samples: the contents of a fresh line.
pub open spec fn spec_zeros() -> Seq<i64> {
    Seq::new(MAX_DELAY_SAMPLES as nat, |i: int| 0i64)
}

/// The model state `(buffer, cursor, last output)` after `j + 1` steps of an
/// impulse experiment: a first write of `x` followed by writes of zero, all
/// at the constant integer delay `k`, starting from a fresh line.
pub open spec fn spec_run_impulse(k: int, x: i64, j: int) -> (Seq<i64>, int, int)
    decreases j,
{
    if j <= 0 {
        spec_delay_step(spec_zeros(), 0, x, k, 0)
    } else {
        let s = spec_run_impulse(k, x, j - 1);
        spec_delay_step(s.0, s.1, 0, k, 0)
    }
}

/// Delay-line round trip: at integer delay `k`, writing an impulse followed
/// by zeros reads back zero for the first `k` steps and the impulse at step
/// `k` exactly.
pub proof fn lemma_delay_line_round_trip(k: int, x: i64, j: int)
    requires
        0 <= k < MAX_DELAY_SAMPLES,
        0 <= j <= k,
        -FX_ONE <= x <= FX_ONE,
    ensures
        spec_run_impulse(k, x, j).0 =~= spec_zeros().update(0, x),
        spec_run_impulse(k, x, j).1 == (j + 1) % (MAX_DELAY_SAMPLES as int),
        spec_run_impulse(k, x, j).2 == if j == k { x as int } else { 0 },
    decreases j,
{
    let n = MAX_DELAY_SAMPLES as int;
    vstd::arithmetic::div_mod::lemma_mod_self_0(n);
    if j == 0 {
        let s = spec_delay_step(spec_zeros(), 0, x, k, 0);
        let wbuf = spec_zeros().update(0, x);
        assert(s.0 =~= wbuf);
        vstd::arithmetic::div_mod::lemma_small_mod(1nat, n as nat);
        vstd::arithmetic::div_mod::lemma_small_mod(k as nat, n as nat);
        let i1 = (0 + n - (k % n)) % n;
        if k == 0 {
            assert(i1 == 0);
            assert(wbuf[i1] == x);
            assert(s.2 == spec_interp(wbuf[(i1 + n - 1) % n] as int, x as int, 0));
            assert(spec_interp(wbuf[(i1 + n - 1) % n] as int, x as int, 0) == x as int);
        } else {
            vstd::arithmetic::div_mod::lemma_small_mod((n - k) as nat, n as nat);
            assert(i1 == n - k);
            assert(wbuf[i1] == 0);
            assert(s.2 == spec_interp(wbuf[(i1 + n - 1) % n] as int, 0, 0));
            assert(spec_interp(wbuf[(i1 + n - 1) % n] as int, 0, 0) == 0);
        }
    } else {
        lemma_delay_line_round_trip(k, x, j - 1);
        let prev = spec_run_impulse(k, x, j - 1);
        let s = spec_delay_step(prev.0, prev.1, 0, k, 0);
        vstd::arithmetic::div_mod::lemma_small_mod(j as nat, n as nat);
        assert(prev.1 == j);
        let wbuf = prev.0.update(j, 0);
        assert(wbuf =~= spec_zeros().update(0, x));
        if j + 1 < n {
            vstd::arithmetic::div_mod::lemma_small_mod((j + 1) as nat, n as nat);
        }
        vstd::arithmetic::div_mod::lemma_small_mod(k as nat, n as nat);
        let i1 = (j + n - (k % n)) % n;
        if j == k {
            assert(i1 == 0);
            assert(wbuf[i1] == x);
            assert(s.2 == spec_interp(wbuf[(i1 + n - 1) % n] as int, x as int, 0));
            assert(spec_interp(wbuf[(i1 + n - 1) % n] as int, x as int, 0) == x as int);
        } else {
            vstd::arithmetic::div_mod::lemma_small_mod((j + n - k) as nat, n as nat);
            assert(i1 == j + n - k);
            assert(wbuf[i1] == 0);
            assert(s.2 == spec_interp(wbuf[(i1 + n - 1) % n] as int, 0, 0));
            assert(spec_interp(wbuf[(i1 + n - 1) % n] as int, 0, 0) == 0);
        }
    }
}

} // verus!

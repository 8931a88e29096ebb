//! Unit-level checks of the fixed-point DSP pieces: oscillator, limiter,
//! square root, envelope timing, delay line, and the note mappings.

use haptic_engine::delay::DelayLine;
use haptic_engine::envelope::{EnvState, Envelope};
use haptic_engine::fixed::{clamp_unit, isqrt_u64, mul_q16, sine_q16, smooth_toward};
use haptic_engine::voice::{amplitude_of_velocity, frequency_of_note};
use haptic_engine::engine::wave_speed_of_velocity;

#[test]
fn sine_hits_zero_crossings_and_peaks() {
    assert_eq!(sine_q16(0), 0);
    // Quarter cycle: the positive peak, exactly one.
    assert_eq!(sine_q16(1 << 30), 65536);
    // Half cycle: back to zero.
    assert_eq!(sine_q16(1 << 31), 0);
    // Three quarters: the negative peak.
    assert_eq!(sine_q16(3 << 30), -65536);
}

#[test]
fn sine_is_bounded_everywhere() {
    let mut phase: u64 = 0;
    while phase < 0x1_0000_0000 {
        let s = sine_q16(phase);
        assert!(-65536 <= s && s <= 65536);
        phase += 12_345_678;
    }
}

#[test]
fn limiter_clamps_to_unit_range() {
    assert_eq!(clamp_unit(0), 0);
    assert_eq!(clamp_unit(65536), 65536);
    assert_eq!(clamp_unit(65537), 65536);
    assert_eq!(clamp_unit(-65537), -65536);
    assert_eq!(clamp_unit(123_456_789), 65536);
    assert_eq!(clamp_unit(-123_456_789), -65536);
    assert_eq!(clamp_unit(42), 42);
}

#[test]
fn isqrt_exact_values() {
    assert_eq!(isqrt_u64(0), 0);
    assert_eq!(isqrt_u64(1), 1);
    assert_eq!(isqrt_u64(3), 1);
    assert_eq!(isqrt_u64(4), 2);
    assert_eq!(isqrt_u64(65536 * 65536), 65536);
    assert_eq!(isqrt_u64(65536 * 65536 - 1), 65535);
}

#[test]
fn mul_q16_scales_and_truncates() {
    assert_eq!(mul_q16(65536, 65536), 65536);
    assert_eq!(mul_q16(-65536, 65536), -65536);
    assert_eq!(mul_q16(65536, 32768), 32768);
    assert_eq!(mul_q16(-32768, 32768), -16384);
    assert_eq!(mul_q16(1, 1), 0);
}

#[test]
fn frequency_of_middle_c_and_reference_a() {
    // Note 60: 261.63 Hz, i.e. 440 * 2^(-9/12) in Q16.
    assert_eq!(frequency_of_note(60), 17_145_920);
    assert_eq!(17_145_920 / 65536, 261);
    // Note 69 is the 440 Hz reference exactly.
    assert_eq!(frequency_of_note(69), 440 * 65536);
    // An octave above doubles.
    assert_eq!(frequency_of_note(81), 880 * 65536);
}

#[test]
fn amplitude_is_velocity_over_127() {
    assert_eq!(amplitude_of_velocity(0), 0);
    assert_eq!(amplitude_of_velocity(127), 65536);
    assert_eq!(amplitude_of_velocity(64), 64 * 65536 / 127);
}

#[test]
fn wave_speed_spans_20_to_500() {
    assert_eq!(wave_speed_of_velocity(0), 20 * 65536);
    assert_eq!(wave_speed_of_velocity(127), 500 * 65536);
    // Velocity 40: 20 + 40/127*480, about 171.2 m/s.
    let ws = wave_speed_of_velocity(40);
    assert_eq!(ws, 1310720 + 40 * 480 * 65536 / 127);
    assert_eq!(ws / 65536, 171);
}

#[test]
fn expression_follower_approaches_without_overshoot() {
    // At 48 kHz the 20 ms follower closes 68/65536 of the gap per sample.
    assert_eq!(smooth_toward(0, 65536, 48000), 68);
    assert_eq!(smooth_toward(65536, 0, 48000), 65536 - 68);
    assert_eq!(smooth_toward(0, -65536, 48000), -68);
    // A one-count gap still closes, and the target is a fixed point.
    assert_eq!(smooth_toward(65535, 65536, 48000), 65536);
    assert_eq!(smooth_toward(65536, 65536, 48000), 65536);
    // Convergence: from zero to full pressure within a quarter second.
    let mut cur: i64 = 0;
    for _ in 0..12000 {
        cur = smooth_toward(cur, 65536, 48000);
        assert!(cur <= 65536);
    }
    assert_eq!(cur, 65536);
}

#[test]
fn envelope_attack_reaches_sustain_in_100_ms() {
    let mut env = Envelope::new_idle();
    env.trigger_attack();
    let mut prev = env.level_q32;
    // 100 ms at 48 kHz is 4800 samples; the level may never decrease.
    for _ in 0..4799 {
        env.step(48000);
        assert!(env.level_q32 >= prev);
        prev = env.level_q32;
        assert_eq!(env.state, EnvState::Attack);
    }
    env.step(48000);
    assert_eq!(env.state, EnvState::Sustain);
    assert_eq!(env.level_q32, 0x1_0000_0000);
}

#[test]
fn envelope_release_reaches_idle_in_500_ms() {
    let mut env = Envelope::new_idle();
    env.trigger_attack();
    for _ in 0..4800 {
        env.step(48000);
    }
    env.trigger_release();
    let mut prev = env.level_q32;
    // 500 ms at 48 kHz is 24000 samples; the level may never increase.
    for _ in 0..24000 {
        env.step(48000);
        assert!(env.level_q32 <= prev);
        prev = env.level_q32;
    }
    assert_eq!(env.state, EnvState::Idle);
    assert_eq!(env.level_q32, 0);
}

#[test]
fn delay_line_round_trips_an_impulse_at_integer_delay() {
    // Delay of 3 samples: the impulse appears on the fourth read.
    let mut line = DelayLine::new();
    let k: u64 = 3;
    let mut outputs = Vec::new();
    outputs.push(line.write_and_read(65536, k * 65536));
    for _ in 0..k {
        outputs.push(line.write_and_read(0, k * 65536));
    }
    assert_eq!(outputs, vec![0, 0, 0, 65536]);
}

#[test]
fn delay_line_interpolates_fractional_delays() {
    // Delay of 1.5 samples splits the impulse across two reads.
    let mut line = DelayLine::new();
    let delay = 65536 + 32768;
    assert_eq!(line.write_and_read(65536, delay), 0);
    assert_eq!(line.write_and_read(0, delay), 32768);
    assert_eq!(line.write_and_read(0, delay), 32768);
    assert_eq!(line.write_and_read(0, delay), 0);
}

#[test]
fn delay_line_reset_silences_it() {
    let mut line = DelayLine::new();
    for _ in 0..10 {
        line.write_and_read(65536, 0);
    }
    line.reset();
    for _ in 0..20 {
        assert_eq!(line.write_and_read(0, 5 * 65536), 0);
    }
}

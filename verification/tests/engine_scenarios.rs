//! End-to-end engine scenarios: commands travel through the real bridge
//! into the audio-side drain, and the pools, envelopes and limiter behave
//! as specified.

use haptic_engine::engine::StimulusEngine;
use haptic_engine::envelope::EnvState;
use haptic_engine::pool::StimulusPool;
use haptic_engine::protocol::{HapticCommand, MpeData};
use haptic_engine::voice::{ProcessContext, WaveStimulus};

const SR: u32 = 48000;

fn mpe(pressure: i64, bend: i64, timbre: i64) -> MpeData {
    MpeData { pressure_q16: pressure, pitch_bend_q16: bend, timbre_q16: timbre }
}

fn note_on(note: u8, velocity: u8, channel: u8, m: MpeData) -> HapticCommand {
    HapticCommand::NoteOn { ts_us: 0, note, velocity, channel, mpe: m }
}

fn frame(engine: &mut StimulusEngine) -> Vec<i64> {
    let mut out = vec![0i64; 32];
    engine.process(&mut out, SR);
    out
}

fn wave_active_count(engine: &StimulusEngine) -> usize {
    (0..8).filter(|&i| engine.wave_pool.slot_active(i)).count()
}

fn standing_active_count(engine: &StimulusEngine) -> usize {
    (0..4).filter(|&i| engine.standing_pool.slot_active(i)).count()
}

#[test]
fn silence_at_rest() {
    let mut engine = StimulusEngine::new();
    for _ in 0..1000 {
        let out = frame(&mut engine);
        assert_eq!(out, vec![0i64; 32]);
    }
}

#[test]
fn low_velocity_routes_to_the_propagating_pool() {
    let mut engine = StimulusEngine::new();
    assert!(engine.handle_command(note_on(60, 40, 0, MpeData::default())));
    frame(&mut engine);
    assert_eq!(wave_active_count(&engine), 1);
    assert_eq!(standing_active_count(&engine), 0);
    // 261.63 Hz in Q16.
    assert_eq!(engine.wave_pool.stimuli[0].frequency_q16, 17_145_920);
    // 20 + 40/127*480, about 171.2 m/s, in Q16.
    assert_eq!(
        engine.wave_pool.stimuli[0].wave_speed_q16,
        1310720 + 40 * 480 * 65536 / 127
    );
}

#[test]
fn high_velocity_routes_to_the_standing_pool() {
    let mut engine = StimulusEngine::new();
    assert!(engine.handle_command(note_on(60, 100, 0, mpe(65536, 0, 32768))));
    frame(&mut engine);
    assert_eq!(standing_active_count(&engine), 1);
    assert_eq!(wave_active_count(&engine), 0);
    // A standing wave is in phase: every channel carries the same sample.
    for _ in 0..200 {
        let out = frame(&mut engine);
        for ch in 1..32 {
            assert_eq!(out[ch], out[0]);
        }
    }
}

#[test]
fn pool_exhaustion_drops_the_ninth_note() {
    let mut engine = StimulusEngine::new();
    for n in 0..9u8 {
        assert!(engine.handle_command(note_on(40 + n, 30, 0, MpeData::default())));
    }
    frame(&mut engine);
    assert_eq!(wave_active_count(&engine), 8);
    assert_eq!(standing_active_count(&engine), 0);
    // The first eight notes hold the slots, in order.
    for i in 0..8usize {
        assert_eq!(engine.wave_pool.notes[i], 40 + i as u8);
    }
}

#[test]
fn release_completes_and_the_slot_is_reclaimed() {
    let mut engine = StimulusEngine::new();
    assert!(engine.handle_command(note_on(60, 30, 0, MpeData::default())));
    // Hold for 200 ms: through the 100 ms attack and into sustain.
    for _ in 0..9600 {
        frame(&mut engine);
    }
    assert_eq!(engine.wave_pool.stimuli[0].envelope.state, EnvState::Sustain);
    assert!(engine.handle_command(HapticCommand::NoteOff { ts_us: 0, note: 60, channel: 0 }));
    // The release ramp lasts 500 ms; allow one extra frame for the drain
    // and one scan to reclaim the slot.
    for _ in 0..24010 {
        frame(&mut engine);
    }
    assert_eq!(engine.wave_pool.stimuli[0].envelope.state, EnvState::Idle);
    assert_eq!(engine.wave_pool.stimuli[0].envelope.level_q32, 0);
    assert_eq!(wave_active_count(&engine), 0);
    // The freed slot is handed out again.
    assert!(engine.handle_command(note_on(72, 30, 0, MpeData::default())));
    frame(&mut engine);
    assert!(engine.wave_pool.slot_active(0));
}

#[test]
fn note_off_releases_only_the_matching_note_and_channel() {
    let mut engine = StimulusEngine::new();
    assert!(engine.handle_command(note_on(60, 30, 1, MpeData::default())));
    assert!(engine.handle_command(note_on(62, 30, 2, MpeData::default())));
    frame(&mut engine);
    assert!(engine.handle_command(HapticCommand::NoteOff { ts_us: 0, note: 60, channel: 2 }));
    frame(&mut engine);
    // Wrong channel: nothing released.
    assert_eq!(engine.wave_pool.stimuli[0].envelope.state, EnvState::Attack);
    assert!(engine.handle_command(HapticCommand::NoteOff { ts_us: 0, note: 60, channel: 1 }));
    frame(&mut engine);
    assert_eq!(engine.wave_pool.stimuli[0].envelope.state, EnvState::Release);
    assert_eq!(engine.wave_pool.stimuli[1].envelope.state, EnvState::Attack);
}

#[test]
fn mpe_update_retargets_only_its_channel_and_smooths() {
    let mut engine = StimulusEngine::new();
    assert!(engine.handle_command(note_on(60, 30, 1, MpeData::default())));
    assert!(engine.handle_command(note_on(62, 30, 2, MpeData::default())));
    frame(&mut engine);
    let updated = mpe(65536, 32768, 16384);
    assert!(engine.handle_command(HapticCommand::MpeUpdate { ts_us: 0, channel: 2, mpe: updated }));
    frame(&mut engine);
    // Only the voice on channel 2 is retargeted.
    assert_eq!(engine.wave_pool.stimuli[0].mpe_target, MpeData::default());
    assert_eq!(engine.wave_pool.stimuli[0].mpe, MpeData::default());
    assert_eq!(engine.wave_pool.stimuli[1].mpe_target, updated);
    // The follower moves toward the target instead of jumping to it.
    let after_one = engine.wave_pool.stimuli[1].mpe;
    assert_ne!(after_one, updated);
    assert!(0 < after_one.pressure_q16 && after_one.pressure_q16 < 65536);
    // Within half a second (many 20 ms time constants) it settles exactly.
    for _ in 0..24000 {
        frame(&mut engine);
    }
    assert_eq!(engine.wave_pool.stimuli[1].mpe, updated);
    assert_eq!(engine.wave_pool.stimuli[0].mpe, MpeData::default());
}

#[test]
fn panic_silences_everything() {
    let mut engine = StimulusEngine::new();
    for n in 0..4u8 {
        assert!(engine.handle_command(note_on(50 + n, 30, 0, mpe(65536, 0, 32768))));
    }
    for n in 0..2u8 {
        assert!(engine.handle_command(note_on(70 + n, 100, 0, mpe(65536, 0, 32768))));
    }
    // Let the notes build up some sound.
    for _ in 0..2000 {
        frame(&mut engine);
    }
    assert_eq!(wave_active_count(&engine), 4);
    assert_eq!(standing_active_count(&engine), 2);
    assert!(engine.handle_command(HapticCommand::Panic));
    // The frame that drains the panic already renders silence.
    let out = frame(&mut engine);
    assert_eq!(out, vec![0i64; 32]);
    assert_eq!(wave_active_count(&engine), 0);
    assert_eq!(standing_active_count(&engine), 0);
    // The voices themselves are hard-reset, delay buffers zeroed.
    for v in &engine.wave_pool.stimuli {
        assert_eq!(v.envelope.state, EnvState::Idle);
        assert_eq!(v.envelope.level_q32, 0);
        for line in &v.delay_lines {
            assert!(line.buffer.iter().all(|&s| s == 0));
            assert_eq!(line.cursor, 0);
        }
    }
    for v in &engine.standing_pool.stimuli {
        assert_eq!(v.envelope.state, EnvState::Idle);
        assert_eq!(v.envelope.level_q32, 0);
    }
}

#[test]
fn output_stays_within_unit_range_under_load() {
    let mut engine = StimulusEngine::new();
    // Fill both pools at full pressure and drive them well past the attack.
    for n in 0..8u8 {
        assert!(engine.handle_command(note_on(40 + n, 63, 0, mpe(65536, -65536, 65536))));
    }
    for n in 0..4u8 {
        assert!(engine.handle_command(note_on(80 + n, 127, 0, mpe(65536, 65536, 0))));
    }
    for _ in 0..6000 {
        let out = frame(&mut engine);
        for ch in 0..32 {
            assert!(-65536 <= out[ch] && out[ch] <= 65536);
        }
    }
}

#[test]
fn phase_stays_in_one_cycle() {
    let mut engine = StimulusEngine::new();
    assert!(engine.handle_command(note_on(100, 30, 0, mpe(65536, 0, 32768))));
    for _ in 0..5000 {
        frame(&mut engine);
        assert!(engine.wave_pool.stimuli[0].phase_q32 < 0x1_0000_0000);
    }
}

#[test]
fn occupancy_flips_true_on_allocate_and_false_on_the_idle_scan() {
    let mut pool: StimulusPool<WaveStimulus> = StimulusPool::new(3);
    // First-free allocation, in order.
    assert_eq!(pool.allocate(), Some(0));
    assert_eq!(pool.allocate(), Some(1));
    assert_eq!(pool.allocate(), Some(2));
    assert_eq!(pool.allocate(), None);
    assert!(pool.slot_active(0) && pool.slot_active(1) && pool.slot_active(2));

    // Only slot 1 plays a note; the others stay idle voices.
    pool.note_on_slot(1, 60, 30, 0, MpeData::default());

    let positions = StimulusEngine::default_grid_layout();
    let ctx = ProcessContext { sample_rate: SR, transducer_positions: &positions };
    let mut out = vec![0i64; 32];
    pool.process_all(&ctx, &mut out);

    // The scan reclaims the bits whose voices were idle, and only those.
    assert!(!pool.slot_active(0));
    assert!(pool.slot_active(1));
    assert!(!pool.slot_active(2));
    // The freed slots are allocatable again.
    assert_eq!(pool.allocate(), Some(0));
}

#[test]
fn invalid_commands_from_the_bridge_are_dropped() {
    let mut engine = StimulusEngine::new();
    // An out-of-range velocity reaches the bridge but must not allocate.
    assert!(engine.handle_command(note_on(60, 40, 0, mpe(999_999, 0, 32768))));
    frame(&mut engine);
    assert_eq!(wave_active_count(&engine), 0);
    assert_eq!(standing_active_count(&engine), 0);
}

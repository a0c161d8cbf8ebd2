use keyboard_piano::controller::{Controller, InputEvent, VOLUME_INITIAL, VOLUME_MAX};
use keyboard_piano::registry::{ToneParams, ToneRegistry};
use keyboard_piano::renderer::SampleClock;
use keyboard_piano::waveform::{waveform_for, Waveform, INSTRUMENT_MAX};

#[test]
fn waveform_for_each_instrument() {
    assert_eq!(waveform_for(0), Waveform::Sine);
    assert_eq!(waveform_for(1), Waveform::Square);
    assert_eq!(waveform_for(2), Waveform::Saw);
    assert_eq!(waveform_for(3), Waveform::Triangle);
    assert_eq!(waveform_for(4), Waveform::Silence);
    assert_eq!(waveform_for(255), Waveform::Silence);
}

#[test]
fn instrument_selector_clamps_at_both_ends() {
    let mut c = Controller::new();
    assert_eq!(c.instrument, 0);
    for _ in 0..10 {
        c.on_instrument_left();
        assert_eq!(c.instrument, 0);
    }
    for _ in 0..50 {
        c.on_instrument_right();
        assert!(c.instrument <= INSTRUMENT_MAX);
    }
    assert_eq!(c.instrument, INSTRUMENT_MAX);
    c.on_instrument_left();
    assert_eq!(c.instrument, INSTRUMENT_MAX - 1);
}

#[test]
fn volume_clamps_at_both_ends() {
    let mut c = Controller::new();
    assert_eq!(c.volume, VOLUME_INITIAL);
    // The volume-up command lowers the level, as the key binding does.
    for _ in 0..60 {
        c.on_volume_up();
    }
    assert_eq!(c.volume, 0);
    for _ in 0..60 {
        c.on_volume_down();
        assert!(c.volume <= VOLUME_MAX);
    }
    assert_eq!(c.volume, VOLUME_MAX);
}

#[test]
fn volume_steps_are_inverse_away_from_the_edges() {
    let mut c = Controller::new();
    c.on_volume_up();
    c.on_volume_down();
    assert_eq!(c.volume, VOLUME_INITIAL);
}

#[test]
fn repeated_insert_is_idempotent() {
    let mut reg = ToneRegistry::new();
    let f = 440.0f64.to_bits();
    reg.insert(f, 10, Waveform::Sine);
    let once = reg.get(f);
    let len_once = reg.len();
    reg.insert(f, 10, Waveform::Sine);
    assert_eq!(reg.get(f), once);
    assert_eq!(reg.len(), len_once);
    assert_eq!(reg.len(), 1);
}

#[test]
fn insert_then_remove_leaves_registry_empty() {
    let mut reg = ToneRegistry::new();
    let f = 440.0f64.to_bits();
    reg.insert(f, 10, Waveform::Sine);
    reg.remove(f);
    assert_eq!(reg.len(), 0);
    assert_eq!(reg.get(f), None);
    assert_eq!(reg.snapshot().len(), 0);
}

#[test]
fn remove_of_absent_frequency_is_a_no_op() {
    let mut reg = ToneRegistry::new();
    let f = 440.0f64.to_bits();
    let g = 880.0f64.to_bits();
    reg.insert(f, 10, Waveform::Sine);
    reg.remove(g);
    assert_eq!(reg.len(), 1);
    assert_eq!(
        reg.get(f),
        Some(ToneParams { amp: 10, wave: Waveform::Sine })
    );
}

#[test]
fn insert_under_held_key_overwrites_parameters() {
    let mut reg = ToneRegistry::new();
    let f = 440.0f64.to_bits();
    reg.insert(f, 10, Waveform::Sine);
    reg.insert(f, 5, Waveform::Square);
    assert_eq!(reg.len(), 1);
    assert_eq!(
        reg.get(f),
        Some(ToneParams { amp: 5, wave: Waveform::Square })
    );
}

#[test]
fn key_down_captures_settings_at_press_time() {
    let mut reg = ToneRegistry::new();
    let mut c = Controller::new();
    let f = 440.0f64.to_bits();
    c.on_key_down(&mut reg, f);
    // Later setting changes must not touch the already sounding tone.
    c.on_instrument_right();
    c.on_volume_up();
    c.on_volume_up();
    assert_eq!(
        reg.get(f),
        Some(ToneParams { amp: VOLUME_INITIAL, wave: Waveform::Sine })
    );
    // A second press of the held key re-captures the current settings.
    c.on_key_down(&mut reg, f);
    assert_eq!(
        reg.get(f),
        Some(ToneParams { amp: VOLUME_INITIAL - 2, wave: Waveform::Square })
    );
}

#[test]
fn single_tone_snapshot_holds_exactly_that_tone() {
    // A 440 Hz press under the sine instrument at half volume: the
    // renderer's uncontended read sees exactly this one tone, so its mix
    // at clock p is 0.5 * sin(p * 440 * pi / 44100), computed by the
    // waveform evaluator outside this library.
    let mut reg = ToneRegistry::new();
    let c = Controller::new();
    let f = 440.0f64.to_bits();
    c.on_key_down(&mut reg, f);
    let snap = reg.snapshot();
    assert_eq!(snap.len(), 1);
    assert_eq!(snap[0].freq, f);
    assert_eq!(f64::from_bits(snap[0].freq), 440.0);
    assert_eq!(snap[0].params.amp, 10);
    // amp level 10 stands for amplitude 10 * 0.05 = 0.5.
    assert_eq!(f64::from(snap[0].params.amp) * 0.05, 0.5);
    assert_eq!(snap[0].params.wave, Waveform::Sine);
}

#[test]
fn two_tones_snapshot_holds_both_unreduced() {
    // Two simultaneous presses: the read the mix is summed over holds
    // both tones at their full captured amplitude — no limiting or
    // normalization is recorded in the registry.
    let mut reg = ToneRegistry::new();
    let c = Controller::new();
    let f = 440.0f64.to_bits();
    let g = 880.0f64.to_bits();
    c.on_key_down(&mut reg, f);
    c.on_key_down(&mut reg, g);
    let snap = reg.snapshot();
    assert_eq!(snap.len(), 2);
    let mut saw_f = false;
    let mut saw_g = false;
    for entry in &snap {
        if entry.freq == f {
            saw_f = true;
        }
        if entry.freq == g {
            saw_g = true;
        }
        assert_eq!(entry.params.amp, 10);
        assert_eq!(entry.params.wave, Waveform::Sine);
    }
    assert!(saw_f && saw_g);
}

#[test]
fn handle_event_stops_only_on_quit() {
    let mut reg = ToneRegistry::new();
    let mut c = Controller::new();
    let f = 440.0f64.to_bits();
    assert!(c.handle_event(&mut reg, InputEvent::KeyDown(f)));
    assert!(c.handle_event(&mut reg, InputEvent::KeyUp(f)));
    assert!(c.handle_event(&mut reg, InputEvent::InstrumentLeft));
    assert!(c.handle_event(&mut reg, InputEvent::InstrumentRight));
    assert!(c.handle_event(&mut reg, InputEvent::VolumeUp));
    assert!(c.handle_event(&mut reg, InputEvent::VolumeDown));
    assert!(!c.handle_event(&mut reg, InputEvent::Quit));
}

#[test]
fn handle_event_routes_keys_through_the_registry() {
    let mut reg = ToneRegistry::new();
    let mut c = Controller::new();
    let f = 220.0f64.to_bits();
    c.handle_event(&mut reg, InputEvent::InstrumentRight);
    c.handle_event(&mut reg, InputEvent::InstrumentRight);
    c.handle_event(&mut reg, InputEvent::KeyDown(f));
    assert_eq!(
        reg.get(f),
        Some(ToneParams { amp: VOLUME_INITIAL, wave: Waveform::Saw })
    );
    c.handle_event(&mut reg, InputEvent::KeyUp(f));
    assert_eq!(reg.get(f), None);
    assert_eq!(reg.len(), 0);
}

#[test]
fn sample_clock_wraps_modulo_the_rate() {
    let mut clock = SampleClock::new(4);
    assert_eq!(clock.advance(), 1);
    assert_eq!(clock.advance(), 2);
    assert_eq!(clock.advance(), 3);
    assert_eq!(clock.advance(), 0);
    assert_eq!(clock.advance(), 1);
}

#[test]
fn sample_clock_starts_at_zero_and_advances_first() {
    // The renderer advances before evaluating, so the first frame is
    // rendered at position 1, not at position 0.
    let mut clock = SampleClock::new(44100);
    assert_eq!(clock.sample_clock, 0);
    assert_eq!(clock.advance(), 1);
}

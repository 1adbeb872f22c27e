use cw_adapter::keyer_app::{
    apply_config_update, next_keyer_mode, parse_midi_cc, parse_midi_cc_packets, ButtonRepeat,
    ConfigUpdate, KeyEvent, KeyerApp, KeyerMode, KeyerOutput, KeyerSettings, CC_AUTO_SPACING,
    CC_DYNAMIC_RATIO, CC_FARNSWORTH, CC_HANG_TIME, CC_IAMBIC_B_TIMING, CC_KEYING_COMP,
    CC_KEYS_REVERSED, CC_MODE, CC_SPEED_WPM, CC_WEIGHT,
};

fn settings() -> KeyerSettings {
    KeyerSettings {
        mode: KeyerMode::IambicB,
        speed_wpm: 20,
        weight: 50,
        keys_reversed: false,
        iambic_b_timing_percent: 50,
        keying_compensation_ms: 0,
        farnsworth_wpm: 0,
        hang_time_ms: 0,
        auto_spacing: false,
        dynamic_ratio: false,
    }
}

fn cc(num: u8, val: u8) -> Option<ConfigUpdate> {
    parse_midi_cc(&[0x0B, 0xBF, num, val])
}

#[test]
fn parse_mode_values() {
    assert_eq!(cc(CC_MODE, 0), Some(ConfigUpdate::Mode(KeyerMode::Straight)));
    assert_eq!(cc(CC_MODE, 1), Some(ConfigUpdate::Mode(KeyerMode::IambicA)));
    assert_eq!(cc(CC_MODE, 2), Some(ConfigUpdate::Mode(KeyerMode::IambicB)));
    assert_eq!(cc(CC_MODE, 3), Some(ConfigUpdate::Mode(KeyerMode::Bug)));
    assert_eq!(cc(CC_MODE, 4), Some(ConfigUpdate::Mode(KeyerMode::Ultimatic)));
    assert_eq!(cc(CC_MODE, 5), Some(ConfigUpdate::Mode(KeyerMode::SinglePaddle)));
    assert_eq!(cc(CC_MODE, 6), None);
    assert_eq!(cc(CC_MODE, 127), None);
}

#[test]
fn parse_speed_is_clamped() {
    assert_eq!(cc(CC_SPEED_WPM, 0), Some(ConfigUpdate::SpeedWpm(5)));
    assert_eq!(cc(CC_SPEED_WPM, 25), Some(ConfigUpdate::SpeedWpm(25)));
    assert_eq!(cc(CC_SPEED_WPM, 100), Some(ConfigUpdate::SpeedWpm(60)));
}

#[test]
fn parse_other_settings() {
    assert_eq!(cc(CC_WEIGHT, 10), Some(ConfigUpdate::Weight(25)));
    assert_eq!(cc(CC_WEIGHT, 60), Some(ConfigUpdate::Weight(60)));
    assert_eq!(cc(CC_WEIGHT, 90), Some(ConfigUpdate::Weight(75)));
    assert_eq!(cc(CC_KEYS_REVERSED, 0), Some(ConfigUpdate::KeysReversed(false)));
    assert_eq!(cc(CC_KEYS_REVERSED, 7), Some(ConfigUpdate::KeysReversed(true)));
    assert_eq!(cc(CC_IAMBIC_B_TIMING, 127), Some(ConfigUpdate::IambicBTiming(100)));
    assert_eq!(cc(CC_IAMBIC_B_TIMING, 40), Some(ConfigUpdate::IambicBTiming(40)));
    assert_eq!(cc(CC_KEYING_COMP, 51), Some(ConfigUpdate::KeyingComp(50)));
    assert_eq!(cc(CC_FARNSWORTH, 61), Some(ConfigUpdate::Farnsworth(60)));
    assert_eq!(cc(CC_FARNSWORTH, 18), Some(ConfigUpdate::Farnsworth(18)));
    assert_eq!(cc(CC_HANG_TIME, 127), Some(ConfigUpdate::HangTime(1270)));
    assert_eq!(cc(CC_AUTO_SPACING, 1), Some(ConfigUpdate::AutoSpacing(true)));
    assert_eq!(cc(CC_DYNAMIC_RATIO, 0), Some(ConfigUpdate::DynamicRatio(false)));
    assert_eq!(cc(0, 1), None);
    assert_eq!(cc(11, 1), None);
}

#[test]
fn parse_rejects_other_channels_and_short_packets() {
    assert_eq!(parse_midi_cc(&[0x0B, 0xB0, CC_SPEED_WPM, 20]), None);
    assert_eq!(parse_midi_cc(&[0x09, 0x90, 60, 0x7F]), None);
    assert_eq!(parse_midi_cc(&[0x0B, 0xBF, CC_SPEED_WPM]), None);
    assert_eq!(parse_midi_cc(&[]), None);
    assert_eq!(parse_midi_cc(&[0x0B, 0xBF, CC_SPEED_WPM, 30, 99]), Some(ConfigUpdate::SpeedWpm(30)));
}

#[test]
fn parse_packets_in_order() {
    let buf = [
        0x0B, 0xBF, CC_SPEED_WPM, 30, // speed
        0x0B, 0xB0, CC_SPEED_WPM, 40, // other channel: skipped
        0x0B, 0xBF, CC_MODE, 3, // mode
        0x0B, 0xBF, CC_WEIGHT, // partial packet: ignored
    ];
    let updates = parse_midi_cc_packets(&buf);
    assert_eq!(updates, vec![ConfigUpdate::SpeedWpm(30), ConfigUpdate::Mode(KeyerMode::Bug)]);
    assert!(parse_midi_cc_packets(&[]).is_empty());
}

#[test]
fn apply_updates_one_field() {
    let mut s = settings();
    apply_config_update(&mut s, ConfigUpdate::SpeedWpm(33));
    assert_eq!(s, KeyerSettings { speed_wpm: 33, ..settings() });
    apply_config_update(&mut s, ConfigUpdate::Mode(KeyerMode::Bug));
    assert_eq!(s, KeyerSettings { speed_wpm: 33, mode: KeyerMode::Bug, ..settings() });
    let mut s = settings();
    apply_config_update(&mut s, ConfigUpdate::HangTime(500));
    assert_eq!(s.hang_time_ms, 500);
    apply_config_update(&mut s, ConfigUpdate::KeysReversed(true));
    assert!(s.keys_reversed);
    apply_config_update(&mut s, ConfigUpdate::Weight(70));
    assert_eq!(s.weight, 70);
    apply_config_update(&mut s, ConfigUpdate::IambicBTiming(10));
    assert_eq!(s.iambic_b_timing_percent, 10);
    apply_config_update(&mut s, ConfigUpdate::KeyingComp(5));
    assert_eq!(s.keying_compensation_ms, 5);
    apply_config_update(&mut s, ConfigUpdate::Farnsworth(12));
    assert_eq!(s.farnsworth_wpm, 12);
    apply_config_update(&mut s, ConfigUpdate::AutoSpacing(true));
    assert!(s.auto_spacing);
    apply_config_update(&mut s, ConfigUpdate::DynamicRatio(true));
    assert!(s.dynamic_ratio);
}

#[test]
fn mode_cycle_order() {
    assert_eq!(next_keyer_mode(KeyerMode::IambicB), KeyerMode::IambicA);
    assert_eq!(next_keyer_mode(KeyerMode::IambicA), KeyerMode::Straight);
    assert_eq!(next_keyer_mode(KeyerMode::Straight), KeyerMode::Bug);
    assert_eq!(next_keyer_mode(KeyerMode::Bug), KeyerMode::Ultimatic);
    assert_eq!(next_keyer_mode(KeyerMode::Ultimatic), KeyerMode::SinglePaddle);
    assert_eq!(next_keyer_mode(KeyerMode::SinglePaddle), KeyerMode::IambicB);
    let mut m = KeyerMode::Bug;
    for _ in 0..6 {
        m = next_keyer_mode(m);
    }
    assert_eq!(m, KeyerMode::Bug);
}

#[test]
fn button_repeat_timing() {
    let mut r = ButtonRepeat::new();
    let mut fired = Vec::new();
    for tick in 1..=800u32 {
        if r.tick_held() {
            fired.push(tick);
        }
    }
    assert_eq!(fired, vec![500, 600, 700, 800]);
}

#[test]
fn button_repeat_reset_restarts_delay() {
    let mut r = ButtonRepeat::new();
    for _ in 0..500 {
        r.tick_held();
    }
    r.reset();
    for _ in 0..499 {
        assert!(!r.tick_held());
    }
    assert!(r.tick_held());
}

/// Runs `n` ticks with the given raw inputs and returns the last debounced paddles.
fn run(app: &mut KeyerApp, n: usize, dit: bool, dah: bool, a: bool, b: bool) -> (bool, bool) {
    let mut p = (false, false);
    for _ in 0..n {
        p = app.poll_inputs(dit, dah, a, b);
    }
    p
}

#[test]
fn keyer_paddles_debounced_over_eight_ticks() {
    let mut app = KeyerApp::new(settings(), true);
    assert_eq!(run(&mut app, 7, true, false, false, false), (false, false));
    assert_eq!(run(&mut app, 1, true, false, false, false), (true, false));
    assert_eq!(run(&mut app, 8, true, true, false, false), (true, true));
}

#[test]
fn keyer_button_a_lowers_speed_at_once_then_repeats() {
    let mut app = KeyerApp::new(settings(), true);
    // Button A is debounced over 20 ticks; the first debounced tick fires.
    run(&mut app, 19, false, false, true, false);
    assert_eq!(app.settings().speed_wpm, 20);
    run(&mut app, 1, false, false, true, false);
    assert_eq!(app.settings().speed_wpm, 19);
    // Held: the repeat is armed after 50 ticks alone and first fires on its
    // 500th tick, the 550th after the press.
    run(&mut app, 549, false, false, true, false);
    assert_eq!(app.settings().speed_wpm, 19);
    run(&mut app, 1, false, false, true, false);
    assert_eq!(app.settings().speed_wpm, 18);
    run(&mut app, 100, false, false, true, false);
    assert_eq!(app.settings().speed_wpm, 17);
}

#[test]
fn keyer_button_b_raises_speed_up_to_max() {
    let mut app = KeyerApp::new(KeyerSettings { speed_wpm: 60, ..settings() }, true);
    run(&mut app, 20, false, false, false, true);
    assert_eq!(app.settings().speed_wpm, 60);
    let mut app = KeyerApp::new(KeyerSettings { speed_wpm: 59, ..settings() }, true);
    run(&mut app, 20, false, false, false, true);
    assert_eq!(app.settings().speed_wpm, 60);
}

#[test]
fn keyer_speed_not_below_min() {
    let mut app = KeyerApp::new(KeyerSettings { speed_wpm: 5, ..settings() }, true);
    run(&mut app, 2000, false, false, true, false);
    assert_eq!(app.settings().speed_wpm, 5);
}

#[test]
fn keyer_both_buttons_cycle_mode_once() {
    let mut app = KeyerApp::new(settings(), true);
    run(&mut app, 20, false, false, true, true);
    assert_eq!(app.settings().mode, KeyerMode::IambicA);
    assert_eq!(app.settings().speed_wpm, 20);
    run(&mut app, 1000, false, false, true, true);
    assert_eq!(app.settings().mode, KeyerMode::IambicA);
    // Release both, press both again: next mode.
    run(&mut app, 20, false, false, false, false);
    run(&mut app, 20, false, false, true, true);
    assert_eq!(app.settings().mode, KeyerMode::Straight);
}

#[test]
fn keyer_key_output_edges() {
    let mut app = KeyerApp::new(settings(), true);
    assert_eq!(app.key_output(None), None);
    assert_eq!(app.key_output(Some(KeyerOutput::KeyUp)), None);
    assert_eq!(
        app.key_output(Some(KeyerOutput::KeyDown)),
        Some(KeyEvent { key_down: true, buzzer: Some(true), midi_packet: [0x09, 0x90, 60, 0x7F] })
    );
    assert_eq!(app.key_output(Some(KeyerOutput::KeyDown)), None);
    assert_eq!(app.key_output(Some(KeyerOutput::PttRequest)), None);
    assert_eq!(
        app.key_output(Some(KeyerOutput::KeyUp)),
        Some(KeyEvent { key_down: false, buzzer: Some(false), midi_packet: [0x08, 0x80, 60, 0x00] })
    );
}

#[test]
fn keyer_sidetone_disabled_sends_no_buzzer() {
    let mut app = KeyerApp::new(settings(), false);
    assert_eq!(
        app.key_output(Some(KeyerOutput::KeyDown)),
        Some(KeyEvent { key_down: true, buzzer: None, midi_packet: [0x09, 0x90, 60, 0x7F] })
    );
}

#[test]
fn keyer_app_applies_received_update() {
    let mut app = KeyerApp::new(settings(), false);
    assert!(!app.sidetone_enabled());
    app.apply_config_update(ConfigUpdate::SpeedWpm(42));
    assert_eq!(app.settings(), KeyerSettings { speed_wpm: 42, ..settings() });
}

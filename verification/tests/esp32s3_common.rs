use cw_adapter::esp32s3_common::{CwApp, LaunchMode};

#[test]
fn esp_launch_mode_table() {
    assert_eq!(LaunchMode::from_mode_pins(false, false), LaunchMode::Composite);
    assert_eq!(LaunchMode::from_mode_pins(true, false), LaunchMode::SerialOnly);
    assert_eq!(LaunchMode::from_mode_pins(false, true), LaunchMode::MidiOnly);
    assert_eq!(LaunchMode::from_mode_pins(true, true), LaunchMode::Composite);
}

#[test]
fn esp_product_names_and_interfaces() {
    assert_eq!(LaunchMode::Composite.product_name(), "CW Interface");
    assert_eq!(LaunchMode::SerialOnly.product_name(), "CW Interface (Serial)");
    assert_eq!(LaunchMode::MidiOnly.product_name(), "CW Interface (MIDI)");
    assert!(LaunchMode::Composite.is_composite());
    assert!(!LaunchMode::MidiOnly.is_composite());
    assert!(LaunchMode::SerialOnly.serial_enabled() && !LaunchMode::SerialOnly.midi_enabled());
    assert!(LaunchMode::MidiOnly.midi_enabled() && !LaunchMode::MidiOnly.serial_enabled());
}

fn press(app: &mut CwApp, dit: bool, dah: bool) -> cw_adapter::esp32s3_common::CwReports {
    for _ in 0..7 {
        app.step(dit, dah);
    }
    app.step(dit, dah)
}

#[test]
fn esp_debounce_is_eight_samples() {
    let mut app = CwApp::new(true, true);
    for _ in 0..7 {
        assert!(!app.step(true, false).dit);
    }
    assert!(app.step(true, false).dit);
}

#[test]
fn esp_midi_acknowledged() {
    let mut app = CwApp::for_mode(LaunchMode::Composite);
    let r = press(&mut app, true, false);
    assert_eq!(r.serial, Some((true, false)));
    assert_eq!(r.midi, Some(vec![0x09, 0x90, 60, 0x7F]));
    app.midi_written(true);
    let r = app.step(true, false);
    assert_eq!(r.midi, None);
    assert_eq!(r.serial, None);
}

#[test]
fn esp_midi_resent_after_failure() {
    let mut app = CwApp::for_mode(LaunchMode::MidiOnly);
    let r = press(&mut app, true, true);
    assert_eq!(r.serial, None);
    assert_eq!(r.midi, Some(vec![0x09, 0x90, 60, 0x7F, 0x09, 0x90, 62, 0x7F]));
    app.midi_written(false);
    let r = app.step(true, true);
    assert_eq!(r.midi, Some(vec![0x09, 0x90, 60, 0x7F, 0x09, 0x90, 62, 0x7F]));
    app.midi_written(true);
    // Release dah only.
    let r = press(&mut app, true, false);
    assert_eq!(r.midi, Some(vec![0x08, 0x80, 62, 0x00]));
}

#[test]
fn esp_interfaces_for_mode() {
    let app = CwApp::for_mode(LaunchMode::SerialOnly);
    assert!(app.serial() && !app.midi());
    let app = CwApp::for_mode(LaunchMode::Composite);
    assert!(app.serial() && app.midi());
}

use cw_adapter::common::{
    keyboard_keycodes, paddle_midi_packet, CwApp, GamepadReport, LaunchMode,
};

#[test]
fn launch_mode_from_pins() {
    // Documented strap table: S0 (GP16) and S1 (GP17), grounded = true.
    assert_eq!(LaunchMode::from_mode_pins(false, false), LaunchMode::Composite);
    assert_eq!(LaunchMode::from_mode_pins(true, false), LaunchMode::SerialOnly);
    assert_eq!(LaunchMode::from_mode_pins(false, true), LaunchMode::MidiOnly);
    assert_eq!(LaunchMode::from_mode_pins(true, true), LaunchMode::Composite);
}

#[test]
fn launch_mode_from_hid_pins() {
    assert_eq!(LaunchMode::from_hid_mode_pins(false, false, false), LaunchMode::Composite);
    assert_eq!(LaunchMode::from_hid_mode_pins(true, false, false), LaunchMode::KeyboardOnly);
    assert_eq!(LaunchMode::from_hid_mode_pins(false, true, false), LaunchMode::GamepadOnly);
    assert_eq!(LaunchMode::from_hid_mode_pins(false, false, true), LaunchMode::SerialOnly);
    assert_eq!(LaunchMode::from_hid_mode_pins(true, true, false), LaunchMode::MidiOnly);
    assert_eq!(LaunchMode::from_hid_mode_pins(true, true, true), LaunchMode::Composite);
    assert_eq!(LaunchMode::from_hid_mode_pins(true, false, true), LaunchMode::Composite);
}

#[test]
fn launch_mode_product_names() {
    assert_eq!(LaunchMode::Composite.product_name(), "CW Interface");
    assert_eq!(LaunchMode::KeyboardOnly.product_name(), "CW Interface (Keys)");
    assert_eq!(LaunchMode::GamepadOnly.product_name(), "CW Interface (Pad)");
    assert_eq!(LaunchMode::SerialOnly.product_name(), "CW Interface (Serial)");
    assert_eq!(LaunchMode::MidiOnly.product_name(), "CW Interface (MIDI)");
}

#[test]
fn launch_mode_interfaces() {
    let c = LaunchMode::Composite;
    assert!(c.is_composite() && c.keyboard_enabled() && c.gamepad_enabled());
    assert!(c.serial_enabled() && c.midi_enabled());
    let s = LaunchMode::SerialOnly;
    assert!(!s.is_composite() && s.serial_enabled());
    assert!(!s.keyboard_enabled() && !s.gamepad_enabled() && !s.midi_enabled());
    let m = LaunchMode::MidiOnly;
    assert!(m.midi_enabled() && !m.serial_enabled());
    assert!(LaunchMode::KeyboardOnly.keyboard_enabled());
    assert!(!LaunchMode::KeyboardOnly.gamepad_enabled());
    assert!(LaunchMode::GamepadOnly.gamepad_enabled());
}

#[test]
fn keyboard_keys_packed_in_order() {
    assert_eq!(keyboard_keycodes(false, false), [0; 6]);
    assert_eq!(keyboard_keycodes(true, false), [0x1D, 0, 0, 0, 0, 0]);
    assert_eq!(keyboard_keycodes(false, true), [0x1B, 0, 0, 0, 0, 0]);
    assert_eq!(keyboard_keycodes(true, true), [0x1D, 0x1B, 0, 0, 0, 0]);
}

#[test]
fn gamepad_bits() {
    assert_eq!(GamepadReport::from_paddles(false, false).buttons, 0);
    assert_eq!(GamepadReport::from_paddles(true, false).buttons, 1);
    assert_eq!(GamepadReport::from_paddles(false, true).buttons, 2);
    assert_eq!(GamepadReport::from_paddles(true, true).buttons, 3);
}

#[test]
fn midi_packets_for_paddles() {
    assert_eq!(paddle_midi_packet(true, true, false, false), vec![0x09, 0x90, 60, 0x7F]);
    assert_eq!(paddle_midi_packet(false, false, true, true), vec![0x09, 0x90, 62, 0x7F]);
    assert_eq!(
        paddle_midi_packet(true, false, true, false),
        vec![0x08, 0x80, 60, 0x00, 0x08, 0x80, 62, 0x00]
    );
    assert!(paddle_midi_packet(false, true, false, true).is_empty());
}

#[test]
fn cw_app_reports_on_transitions() {
    let mut app = CwApp::for_mode(LaunchMode::Composite);
    // Five samples to debounce a press.
    for _ in 0..4 {
        let r = app.step(true, false);
        assert!(!r.dit);
        assert_eq!(r.keyboard, Some([0; 6]));
        assert_eq!(r.gamepad, Some(GamepadReport { buttons: 0 }));
        assert_eq!(r.serial, None);
        assert_eq!(r.midi, None);
    }
    let r = app.step(true, false);
    assert!(r.dit && !r.dah);
    assert_eq!(r.keyboard, Some([0x1D, 0, 0, 0, 0, 0]));
    assert_eq!(r.gamepad, Some(GamepadReport { buttons: 1 }));
    assert_eq!(r.serial, Some((true, false)));
    assert_eq!(r.midi, Some(vec![0x09, 0x90, 60, 0x7F]));
    // Held: keyboard and gamepad repeat, serial and MIDI stay quiet.
    let r = app.step(true, false);
    assert_eq!(r.keyboard, Some([0x1D, 0, 0, 0, 0, 0]));
    assert_eq!(r.serial, None);
    assert_eq!(r.midi, None);
    // Release.
    for _ in 0..4 {
        app.step(false, false);
    }
    let r = app.step(false, false);
    assert_eq!(r.serial, Some((false, false)));
    assert_eq!(r.midi, Some(vec![0x08, 0x80, 60, 0x00]));
}

#[test]
fn cw_app_single_interface_modes() {
    let mut app = CwApp::for_mode(LaunchMode::SerialOnly);
    let mut last = None;
    for _ in 0..5 {
        let r = app.step(false, true);
        assert_eq!(r.keyboard, None);
        assert_eq!(r.gamepad, None);
        assert_eq!(r.midi, None);
        last = r.serial;
    }
    assert_eq!(last, Some((false, true)));

    let mut app = CwApp::for_mode(LaunchMode::MidiOnly);
    let mut last = None;
    for _ in 0..5 {
        let r = app.step(true, true);
        assert_eq!(r.serial, None);
        last = r.midi;
    }
    assert_eq!(last, Some(vec![0x09, 0x90, 60, 0x7F, 0x09, 0x90, 62, 0x7F]));
}

#[test]
fn cw_app_interfaces_for_mode() {
    let app = CwApp::for_mode(LaunchMode::GamepadOnly);
    assert!(!app.keyboard() && app.gamepad() && !app.serial() && !app.midi());
    let app = CwApp::new(true, false, true, false);
    assert!(app.keyboard() && !app.gamepad() && app.serial() && !app.midi());
}

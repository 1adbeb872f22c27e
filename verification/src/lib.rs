//! Verified core of a low-latency CW (Morse code) paddle interface and keyer.
//!
//! The firmware reads two paddle contacts (dit and dah) and, depending on the
//! launch mode selected by strap pins at boot, reports them to a USB host as
//! keyboard keys, gamepad buttons, CDC modem-status lines or USB-MIDI notes.
//! The keyer variant forms the key line itself and accepts its settings as
//! MIDI control changes.
//!
//! This crate holds the decisions of that firmware as plain state machines:
//! each one takes what the hardware reported and returns what to send.
pub mod debounce;
pub mod keyer_app;
pub mod common;
pub mod esp32s3_common;
pub mod sidetone;

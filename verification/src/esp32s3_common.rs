//! Decisions of the ESP32-S3 build of the paddle interface, which presents
//! only the CDC serial and MIDI interfaces, debounces over eight samples, and
//! keeps MIDI in step with the host across failed writes.
use vstd::prelude::*;

pub use crate::debounce::Debouncer;
use crate::debounce::{DebouncerModel, debounce_step};
use crate::common::{paddle_midi, paddle_midi_packet};

verus! {

/// Samples a paddle contact must agree on before the paddle level changes.
pub const PADDLE_DEBOUNCE: u8 = 8;

/// Which USB interfaces the device presents, chosen at boot by the two
/// mode-select straps.
#[derive(Debug, Clone, Copy, PartialEq, Eq, Structural)]
pub enum LaunchMode {
    Composite,
    SerialOnly,
    MidiOnly,
}

/// The USB product string of each launch mode.
pub open spec fn spec_product_name(mode: LaunchMode) -> Seq<char> {
    match mode {
        LaunchMode::Composite => "CW Interface"@,
        LaunchMode::SerialOnly => "CW Interface (Serial)"@,
        LaunchMode::MidiOnly => "CW Interface (MIDI)"@,
    }
}

/// The launch mode that the two active-low straps select (true = strap to
/// ground): S0 alone for serial only, S1 alone for MIDI only, and Composite
/// when both or neither are grounded.
pub open spec fn spec_mode_from_pins(s0_low: bool, s1_low: bool) -> LaunchMode {
    if s0_low && !s1_low {
        LaunchMode::SerialOnly
    } else if !s0_low && s1_low {
        LaunchMode::MidiOnly
    } else {
        LaunchMode::Composite
    }
}

impl LaunchMode {
    /// The USB product string for this mode.
    pub fn product_name(self) -> (name: &'static str)
        ensures
            name@ == spec_product_name(self),
    {
        match self {
            LaunchMode::Composite => "CW Interface",
            LaunchMode::SerialOnly => "CW Interface (Serial)",
            LaunchMode::MidiOnly => "CW Interface (MIDI)",
        }
    }

    /// The mode selected by the two mode straps, read once at boot.
    pub fn from_mode_pins(s0_low: bool, s1_low: bool) -> (mode: Self)
        ensures
            mode == spec_mode_from_pins(s0_low, s1_low),
    {
        match (s0_low, s1_low) {
            (true, false) => LaunchMode::SerialOnly,
            (false, true) => LaunchMode::MidiOnly,
            _ => LaunchMode::Composite,
        }
    }

    /// Whether the device presents several functions.
    pub fn is_composite(self) -> (b: bool)
        ensures
            b == (self == LaunchMode::Composite),
    {
        match self {
            LaunchMode::Composite => true,
            _ => false,
        }
    }

    /// Whether the CDC serial interface is presented in this mode.
    pub fn serial_enabled(self) -> (b: bool)
        ensures
            b == (self != LaunchMode::MidiOnly),
    {
        match self {
            LaunchMode::MidiOnly => false,
            _ => true,
        }
    }

    /// Whether the MIDI interface is presented in this mode.
    pub fn midi_enabled(self) -> (b: bool)
        ensures
            b == (self != LaunchMode::SerialOnly),
    {
        match self {
            LaunchMode::SerialOnly => false,
            _ => true,
        }
    }
}

/// Model of the interface between samples: which interfaces are present, the
/// two paddle debouncers, and the paddle levels the host last acknowledged
/// over serial and over MIDI.
pub struct CwAppModel {
    pub serial: bool,
    pub midi: bool,
    pub dit: DebouncerModel,
    pub dah: DebouncerModel,
    pub prev_dit_ser: bool,
    pub prev_dah_ser: bool,
    pub prev_dit: bool,
    pub prev_dah: bool,
}

/// The interface before any sample: both paddles released and nothing sent.
pub open spec fn fresh_cw_model(serial: bool, midi: bool) -> CwAppModel {
    CwAppModel {
        serial,
        midi,
        dit: DebouncerModel { state: false, counter: 0, threshold: PADDLE_DEBOUNCE as nat },
        dah: DebouncerModel { state: false, counter: 0, threshold: PADDLE_DEBOUNCE as nat },
        prev_dit_ser: false,
        prev_dah_ser: false,
        prev_dit: false,
        prev_dah: false,
    }
}

/// The interface after one raw paddle sample. The MIDI levels are not
/// advanced here: they move only when the host accepts the packet.
pub open spec fn cw_step(m: CwAppModel, raw_dit: bool, raw_dah: bool) -> CwAppModel {
    let dit = debounce_step(m.dit, raw_dit);
    let dah = debounce_step(m.dah, raw_dah);
    let ser_changed = dit.state != m.prev_dit_ser || dah.state != m.prev_dah_ser;
    CwAppModel {
        dit,
        dah,
        prev_dit_ser: if m.serial && ser_changed { dit.state } else { m.prev_dit_ser },
        prev_dah_ser: if m.serial && ser_changed { dah.state } else { m.prev_dah_ser },
        ..m
    }
}

/// The serial state to send after a sample that gives `next`, if any.
pub open spec fn serial_report(m: CwAppModel, next: CwAppModel) -> Option<(bool, bool)> {
    if m.serial && (next.dit.state != m.prev_dit_ser || next.dah.state != m.prev_dah_ser) {
        Some((next.dit.state, next.dah.state))
    } else {
        None
    }
}

/// The MIDI bytes to send in state `m`, if any: a Note On/Off packet for each
/// paddle whose debounced level differs from the one the host last accepted.
pub open spec fn midi_report(m: CwAppModel) -> Option<Seq<u8>> {
    let dit_changed = m.dit.state != m.prev_dit;
    let dah_changed = m.dah.state != m.prev_dah;
    if m.midi && (dit_changed || dah_changed) {
        Some(paddle_midi(dit_changed, m.dit.state, dah_changed, m.dah.state))
    } else {
        None
    }
}

/// The interface after the host accepted (`ok`) or refused the MIDI packet:
/// accepted levels become the acknowledged ones; after a failure both are
/// taken as released so that pressed paddles are sent again after reconnect.
pub open spec fn midi_ack(m: CwAppModel, ok: bool) -> CwAppModel {
    if ok {
        CwAppModel { prev_dit: m.dit.state, prev_dah: m.dah.state, ..m }
    } else {
        CwAppModel { prev_dit: false, prev_dah: false, ..m }
    }
}

/// What to send to the host after one paddle sample.
pub struct CwReports {
    /// Debounced dit level.
    pub dit: bool,
    /// Debounced dah level.
    pub dah: bool,
    /// New (DCD = dit, DSR = dah) serial state, sent only when it changed.
    pub serial: Option<(bool, bool)>,
    /// MIDI bytes, sent only when a paddle differs from what the host holds.
    pub midi: Option<Vec<u8>>,
}

/// The paddle interface of the ESP32-S3 build.
pub struct CwApp {
    serial: bool,
    midi: bool,
    dit_debounce: Debouncer,
    dah_debounce: Debouncer,
    prev_dit_ser: bool,
    prev_dah_ser: bool,
    prev_dit: bool,
    prev_dah: bool,
}

impl View for CwApp {
    type V = CwAppModel;

    closed spec fn view(&self) -> CwAppModel {
        CwAppModel {
            serial: self.serial,
            midi: self.midi,
            dit: self.dit_debounce@,
            dah: self.dah_debounce@,
            prev_dit_ser: self.prev_dit_ser,
            prev_dah_ser: self.prev_dah_ser,
            prev_dit: self.prev_dit,
            prev_dah: self.prev_dah,
        }
    }
}

impl CwApp {
    /// The interface with the given USB interfaces present.
    pub fn new(serial: bool, midi: bool) -> (app: Self)
        ensures
            app@ == fresh_cw_model(serial, midi),
    {
        CwApp {
            serial,
            midi,
            dit_debounce: Debouncer::new(false, PADDLE_DEBOUNCE),
            dah_debounce: Debouncer::new(false, PADDLE_DEBOUNCE),
            prev_dit_ser: false,
            prev_dah_ser: false,
            prev_dit: false,
            prev_dah: false,
        }
    }

    /// The interface with the USB interfaces that a launch mode presents.
    pub fn for_mode(mode: LaunchMode) -> (app: Self)
        ensures
            app@ == fresh_cw_model(mode != LaunchMode::MidiOnly, mode != LaunchMode::SerialOnly),
    {
        CwApp::new(mode.serial_enabled(), mode.midi_enabled())
    }

    /// Whether the CDC serial interface is present.
    pub fn serial(&self) -> (b: bool)
        ensures
            b == self@.serial,
    {
        self.serial
    }

    /// Whether the MIDI interface is present.
    pub fn midi(&self) -> (b: bool)
        ensures
            b == self@.midi,
    {
        self.midi
    }

    /// Feeds one raw sample of each paddle (true = pressed) and returns what
    /// to send to the host. When MIDI bytes are returned, report the outcome
    /// of sending them with `midi_written`.
    pub fn step(&mut self, raw_dit: bool, raw_dah: bool) -> (r: CwReports)
        ensures
            final(self)@ == cw_step(old(self)@, raw_dit, raw_dah),
            r.dit == final(self)@.dit.state,
            r.dah == final(self)@.dah.state,
            r.serial == serial_report(old(self)@, final(self)@),
            r.serial matches Some(pair) ==> pair == (r.dit, r.dah),
            match r.midi {
                Some(v) => midi_report(final(self)@) == Some(v@),
                None => midi_report(final(self)@) is None,
            },
    {
        let dit_pressed = self.dit_debounce.update(raw_dit);
        let dah_pressed = self.dah_debounce.update(raw_dah);

        let mut serial = None;
        if self.serial && (dit_pressed != self.prev_dit_ser || dah_pressed != self.prev_dah_ser) {
            serial = Some((dit_pressed, dah_pressed));
            self.prev_dit_ser = dit_pressed;
            self.prev_dah_ser = dah_pressed;
        }

        let mut midi = None;
        if self.midi {
            let dit_changed = dit_pressed != self.prev_dit;
            let dah_changed = dah_pressed != self.prev_dah;
            if dit_changed || dah_changed {
                midi = Some(paddle_midi_packet(dit_changed, dit_pressed, dah_changed, dah_pressed));
            }
        }

        CwReports { dit: dit_pressed, dah: dah_pressed, serial, midi }
    }

    /// Records whether the host accepted the MIDI bytes of the last sample.
    pub fn midi_written(&mut self, ok: bool)
        ensures
            final(self)@ == midi_ack(old(self)@, ok),
    {
        if ok {
            self.prev_dit = self.dit_debounce.state();
            self.prev_dah = self.dah_debounce.state();
        } else {
            self.prev_dit = false;
            self.prev_dah = false;
        }
    }
}

/// Once the host accepts a packet, nothing more is sent over MIDI until a
/// debounced level changes.
pub proof fn lemma_accepted_midi_is_quiet(m: CwAppModel, raw_dit: bool, raw_dah: bool)
    ensures
        ({
            let m1 = cw_step(midi_ack(m, true), raw_dit, raw_dah);
            (m1.dit.state == m.dit.state && m1.dah.state == m.dah.state) ==> midi_report(m1) is None
        }),
{
}

/// After a failed MIDI write, the next sample sends a Note On for every
/// paddle that is still pressed, so the host catches up after a reconnect.
pub proof fn lemma_failed_midi_resent(m: CwAppModel, raw_dit: bool, raw_dah: bool)
    requires
        m.midi,
    ensures
        ({
            let m1 = cw_step(midi_ack(m, false), raw_dit, raw_dah);
            (m1.dit.state || m1.dah.state) ==> midi_report(m1) == Some(
                paddle_midi(m1.dit.state, true, m1.dah.state, true),
            )
        }),
{
}

/// A sample never advances the MIDI levels the host holds; only an accepted
/// write does. So until the outcome of a write is recorded, a sample that
/// leaves the paddles where they were offers the same MIDI bytes again.
pub proof fn lemma_midi_levels_advance_only_on_ack(m: CwAppModel, raw_dit: bool, raw_dah: bool)
    ensures
        ({
            let m1 = cw_step(m, raw_dit, raw_dah);
            &&& m1.prev_dit == m.prev_dit
            &&& m1.prev_dah == m.prev_dah
            &&& (m1.dit.state == m.dit.state && m1.dah.state == m.dah.state) ==> midi_report(m1) == midi_report(m)
        }),
{
}


/// The CDC serial state is event-driven and always carries both paddles:
/// when serial is present and either debounced level differs from the state
/// last sent, the sample sends exactly (DCD = dit, DSR = dah) and that pair
/// becomes the last sent state; otherwise nothing is sent and the last sent
/// state is kept. Any state sent is the pair of current debounced levels.
pub proof fn lemma_serial_state_report(m: CwAppModel, raw_dit: bool, raw_dah: bool)
    ensures
        ({
            let dit = debounce_step(m.dit, raw_dit).state;
            let dah = debounce_step(m.dah, raw_dah).state;
            let m1 = cw_step(m, raw_dit, raw_dah);
            let changed = dit != m.prev_dit_ser || dah != m.prev_dah_ser;
            &&& m1.dit.state == dit && m1.dah.state == dah
            &&& (m.serial && changed) ==> {
                &&& serial_report(m, m1) == Some((dit, dah))
                &&& m1.prev_dit_ser == dit
                &&& m1.prev_dah_ser == dah
            }
            &&& !(m.serial && changed) ==> {
                &&& serial_report(m, m1) is None
                &&& m1.prev_dit_ser == m.prev_dit_ser
                &&& m1.prev_dah_ser == m.prev_dah_ser
            }
            &&& serial_report(m, m1) matches Some(p) ==> p == (dit, dah)
        }),
{
}

} // verus!

//! Decisions of the CW paddle interface: launch-mode selection, and the
//! reports sent to the host on each paddle sample as keyboard keys, gamepad
//! buttons, CDC modem-status lines and USB-MIDI notes.
use vstd::prelude::*;

pub use crate::debounce::Debouncer;
use crate::debounce::{DebouncerModel, debounce_step};

verus! {

/// MIDI note reported for the dit paddle (C4).
pub const MIDI_NOTE_DIT: u8 = 60;

/// MIDI note reported for the dah paddle (D4).
pub const MIDI_NOTE_DAH: u8 = 62;

/// HID usage of the key reported for the dit paddle ('z').
pub const KEY_DIT: u8 = 0x1D;

/// HID usage of the key reported for the dah paddle ('x').
pub const KEY_DAH: u8 = 0x1B;

/// Samples a paddle contact must agree on before the paddle level changes.
pub const PADDLE_DEBOUNCE: u8 = 5;

/// The USB-MIDI event packet for one paddle's change: Note On with velocity
/// 127 when pressed, Note Off with velocity 0 when released.
pub open spec fn note_packet(note: u8, pressed: bool) -> Seq<u8> {
    if pressed {
        seq![0x09u8, 0x90u8, note, 0x7Fu8]
    } else {
        seq![0x08u8, 0x80u8, note, 0x00u8]
    }
}

/// The MIDI bytes for a sample in which the paddles marked as changed took
/// the given levels: the dit packet first, then the dah packet.
pub open spec fn paddle_midi(dit_changed: bool, dit_pressed: bool, dah_changed: bool, dah_pressed: bool) -> Seq<u8> {
    (if dit_changed { note_packet(MIDI_NOTE_DIT, dit_pressed) } else { Seq::empty() })
        + (if dah_changed { note_packet(MIDI_NOTE_DAH, dah_pressed) } else { Seq::empty() })
}

/// Appends the four-byte packet for one note change.
fn push_note(buf: &mut Vec<u8>, note: u8, pressed: bool)
    ensures
        final(buf)@ == old(buf)@ + note_packet(note, pressed),
{
    if pressed {
        buf.push(0x09);
        buf.push(0x90);
        buf.push(note);
        buf.push(0x7F);
    } else {
        buf.push(0x08);
        buf.push(0x80);
        buf.push(note);
        buf.push(0x00);
    }
    proof {
        assert(final(buf)@ =~= old(buf)@ + note_packet(note, pressed));
    }
}

/// The MIDI bytes to send for a sample: one Note On/Off packet for each
/// paddle that changed, dit first.
pub fn paddle_midi_packet(dit_changed: bool, dit_pressed: bool, dah_changed: bool, dah_pressed: bool) -> (buf: Vec<u8>)
    ensures
        buf@ == paddle_midi(dit_changed, dit_pressed, dah_changed, dah_pressed),
{
    let mut buf: Vec<u8> = Vec::new();
    if dit_changed {
        push_note(&mut buf, MIDI_NOTE_DIT, dit_pressed);
    }
    if dah_changed {
        push_note(&mut buf, MIDI_NOTE_DAH, dah_pressed);
    }
    proof {
        assert(buf@ =~= paddle_midi(dit_changed, dit_pressed, dah_changed, dah_pressed));
    }
    buf
}

/// The six keycode slots of a boot keyboard report: the pressed paddles' keys
/// packed from the first slot, dit before dah, the rest empty.
pub open spec fn keycodes_spec(dit: bool, dah: bool) -> Seq<u8> {
    if dit && dah {
        seq![KEY_DIT, KEY_DAH, 0u8, 0u8, 0u8, 0u8]
    } else if dit {
        seq![KEY_DIT, 0u8, 0u8, 0u8, 0u8, 0u8]
    } else if dah {
        seq![KEY_DAH, 0u8, 0u8, 0u8, 0u8, 0u8]
    } else {
        seq![0u8, 0u8, 0u8, 0u8, 0u8, 0u8]
    }
}

/// The keycode slots of the keyboard report for the debounced paddles.
pub fn keyboard_keycodes(dit_pressed: bool, dah_pressed: bool) -> (keycodes: [u8; 6])
    ensures
        keycodes@ == keycodes_spec(dit_pressed, dah_pressed),
{
    let mut keycodes = [0u8; 6];
    let mut index: usize = 0;
    if dit_pressed {
        keycodes[index] = KEY_DIT;
        index = index + 1;
    }
    if dah_pressed {
        keycodes[index] = KEY_DAH;
    }
    proof {
        assert(keycodes@ =~= keycodes_spec(dit_pressed, dah_pressed));
    }
    keycodes
}

/// Input report of the gamepad interface: bit 0 is the dit paddle, bit 1 the
/// dah paddle.
#[derive(Debug, Clone, Copy, PartialEq, Eq, Structural)]
pub struct GamepadReport {
    pub buttons: u8,
}

/// The gamepad button bits for the debounced paddles.
pub open spec fn gamepad_buttons(dit: bool, dah: bool) -> u8 {
    ((if dit { 1int } else { 0int }) + (if dah { 2int } else { 0int })) as u8
}

impl GamepadReport {
    /// The report for the debounced paddles.
    pub fn from_paddles(dit_pressed: bool, dah_pressed: bool) -> (r: Self)
        ensures
            r.buttons == gamepad_buttons(dit_pressed, dah_pressed),
    {
        let mut buttons = 0u8;
        proof {
            assert(0u8 | 1u8 == 1u8) by (bit_vector);
        }
        if dit_pressed {
            buttons = buttons | 0b0000_0001;
        }
        if dah_pressed {
            assert(buttons | 0b0000_0010u8 == buttons + 2) by (bit_vector)
                requires
                    buttons == 0 || buttons == 1;
            buttons = buttons | 0b0000_0010;
        }
        GamepadReport { buttons }
    }
}

/// Which USB interfaces the device presents, chosen at boot by the
/// mode-select straps.
#[derive(Debug, Clone, Copy, PartialEq, Eq, Structural)]
pub enum LaunchMode {
    Composite,
    KeyboardOnly,
    GamepadOnly,
    SerialOnly,
    MidiOnly,
}

/// The USB product string of each launch mode.
pub open spec fn spec_product_name(mode: LaunchMode) -> Seq<char> {
    match mode {
        LaunchMode::Composite => "CW Interface"@,
        LaunchMode::KeyboardOnly => "CW Interface (Keys)"@,
        LaunchMode::GamepadOnly => "CW Interface (Pad)"@,
        LaunchMode::SerialOnly => "CW Interface (Serial)"@,
        LaunchMode::MidiOnly => "CW Interface (MIDI)"@,
    }
}

/// The launch mode that the two active-low mode straps select
/// (true = strap to ground), as the board documentation tabulates it:
/// S0 alone for serial only, S1 alone for MIDI only, and Composite when both
/// or neither are grounded.
pub open spec fn spec_mode_from_pins(s0_low: bool, s1_low: bool) -> LaunchMode {
    if s0_low && !s1_low {
        LaunchMode::SerialOnly
    } else if !s0_low && s1_low {
        LaunchMode::MidiOnly
    } else {
        LaunchMode::Composite
    }
}

/// The launch mode that three active-low straps select on a build that also
/// carries the keyboard and gamepad interfaces, which the two-strap table
/// cannot reach: S0 alone for keyboard, S1 alone for gamepad, S2 alone for
/// serial, S0 and S1 for MIDI; any other combination falls back to Composite.
pub open spec fn spec_mode_from_hid_pins(s0_low: bool, s1_low: bool, s2_low: bool) -> LaunchMode {
    if s0_low && !s1_low && !s2_low {
        LaunchMode::KeyboardOnly
    } else if !s0_low && s1_low && !s2_low {
        LaunchMode::GamepadOnly
    } else if !s0_low && !s1_low && s2_low {
        LaunchMode::SerialOnly
    } else if s0_low && s1_low && !s2_low {
        LaunchMode::MidiOnly
    } else {
        LaunchMode::Composite
    }
}

impl LaunchMode {
    /// The USB product string for this mode.
    pub fn product_name(self) -> (name: &'static str)
        ensures
            name@ == spec_product_name(self),
    {
        match self {
            LaunchMode::Composite => "CW Interface",
            LaunchMode::KeyboardOnly => "CW Interface (Keys)",
            LaunchMode::GamepadOnly => "CW Interface (Pad)",
            LaunchMode::SerialOnly => "CW Interface (Serial)",
            LaunchMode::MidiOnly => "CW Interface (MIDI)",
        }
    }

    /// The mode selected by the two mode straps (S0, S1), read once at boot.
    pub fn from_mode_pins(s0_low: bool, s1_low: bool) -> (mode: Self)
        ensures
            mode == spec_mode_from_pins(s0_low, s1_low),
    {
        match (s0_low, s1_low) {
            (true, false) => LaunchMode::SerialOnly,
            (false, true) => LaunchMode::MidiOnly,
            _ => LaunchMode::Composite,
        }
    }

    /// The mode selected by the three mode straps of a build that also
    /// carries the keyboard and gamepad interfaces, read once at boot.
    pub fn from_hid_mode_pins(s0_low: bool, s1_low: bool, s2_low: bool) -> (mode: Self)
        ensures
            mode == spec_mode_from_hid_pins(s0_low, s1_low, s2_low),
    {
        match (s0_low, s1_low, s2_low) {
            (true, false, false) => LaunchMode::KeyboardOnly,
            (false, true, false) => LaunchMode::GamepadOnly,
            (false, false, true) => LaunchMode::SerialOnly,
            (true, true, false) => LaunchMode::MidiOnly,
            _ => LaunchMode::Composite,
        }
    }

    /// Whether the device presents several functions (and so keeps the
    /// composite device class with interface association descriptors).
    pub fn is_composite(self) -> (b: bool)
        ensures
            b == (self == LaunchMode::Composite),
    {
        match self {
            LaunchMode::Composite => true,
            _ => false,
        }
    }

    /// Whether the keyboard interface is presented in this mode.
    pub fn keyboard_enabled(self) -> (b: bool)
        ensures
            b == (self == LaunchMode::Composite || self == LaunchMode::KeyboardOnly),
    {
        match self {
            LaunchMode::Composite | LaunchMode::KeyboardOnly => true,
            _ => false,
        }
    }

    /// Whether the gamepad interface is presented in this mode.
    pub fn gamepad_enabled(self) -> (b: bool)
        ensures
            b == (self == LaunchMode::Composite || self == LaunchMode::GamepadOnly),
    {
        match self {
            LaunchMode::Composite | LaunchMode::GamepadOnly => true,
            _ => false,
        }
    }

    /// Whether the CDC serial interface is presented in this mode.
    pub fn serial_enabled(self) -> (b: bool)
        ensures
            b == (self == LaunchMode::Composite || self == LaunchMode::SerialOnly),
    {
        match self {
            LaunchMode::Composite | LaunchMode::SerialOnly => true,
            _ => false,
        }
    }

    /// Whether the MIDI interface is presented in this mode.
    pub fn midi_enabled(self) -> (b: bool)
        ensures
            b == (self == LaunchMode::Composite || self == LaunchMode::MidiOnly),
    {
        match self {
            LaunchMode::Composite | LaunchMode::MidiOnly => true,
            _ => false,
        }
    }
}

/// Every launch mode except Composite presents exactly one interface, and
/// Composite presents all four.
pub proof fn lemma_single_function_modes(mode: LaunchMode)
    ensures
        ({
            let k = mode == LaunchMode::Composite || mode == LaunchMode::KeyboardOnly;
            let g = mode == LaunchMode::Composite || mode == LaunchMode::GamepadOnly;
            let s = mode == LaunchMode::Composite || mode == LaunchMode::SerialOnly;
            let m = mode == LaunchMode::Composite || mode == LaunchMode::MidiOnly;
            &&& mode == LaunchMode::Composite ==> k && g && s && m
            &&& mode != LaunchMode::Composite ==> (if k { 1int } else { 0 }) + (if g { 1int } else { 0 })
                + (if s { 1int } else { 0 }) + (if m { 1int } else { 0 }) == 1
        }),
{
}

/// The two-strap table reaches Composite, serial only and MIDI only; the
/// three-strap table of the builds with keyboard and gamepad reaches every mode.
pub proof fn lemma_every_mode_selectable(mode: LaunchMode)
    ensures
        (mode == LaunchMode::Composite || mode == LaunchMode::SerialOnly || mode == LaunchMode::MidiOnly)
            <==> exists|s0: bool, s1: bool| spec_mode_from_pins(s0, s1) == mode,
        exists|s0: bool, s1: bool, s2: bool| spec_mode_from_hid_pins(s0, s1, s2) == mode,
{
    match mode {
        LaunchMode::Composite => {
            assert(spec_mode_from_pins(false, false) == mode);
            assert(spec_mode_from_hid_pins(false, false, false) == mode);
        },
        LaunchMode::KeyboardOnly => assert(spec_mode_from_hid_pins(true, false, false) == mode),
        LaunchMode::GamepadOnly => assert(spec_mode_from_hid_pins(false, true, false) == mode),
        LaunchMode::SerialOnly => {
            assert(spec_mode_from_pins(true, false) == mode);
            assert(spec_mode_from_hid_pins(false, false, true) == mode);
        },
        LaunchMode::MidiOnly => {
            assert(spec_mode_from_pins(false, true) == mode);
            assert(spec_mode_from_hid_pins(true, true, false) == mode);
        },
    }
}

/// Model of the paddle interface between samples: which interfaces are
/// present, the two paddle debouncers, and the paddle levels last reported
/// over serial and over MIDI.
pub struct CwAppModel {
    pub keyboard: bool,
    pub gamepad: bool,
    pub serial: bool,
    pub midi: bool,
    pub dit: DebouncerModel,
    pub dah: DebouncerModel,
    pub prev_dit_ser: bool,
    pub prev_dah_ser: bool,
    pub prev_dit: bool,
    pub prev_dah: bool,
}

/// What to send to the host after one paddle sample.
pub struct CwReports {
    /// Debounced dit level.
    pub dit: bool,
    /// Debounced dah level.
    pub dah: bool,
    /// Keycode slots of the keyboard report, sent on every sample.
    pub keyboard: Option<[u8; 6]>,
    /// Gamepad report, sent on every sample.
    pub gamepad: Option<GamepadReport>,
    /// New (DCD = dit, DSR = dah) serial state, sent only when it changed.
    pub serial: Option<(bool, bool)>,
    /// MIDI bytes, sent only when a paddle changed.
    pub midi: Option<Vec<u8>>,
}

/// The interface before any sample: both paddles released (active-low
/// contacts at rest read as not pressed) and nothing reported yet.
pub open spec fn fresh_cw_model(keyboard: bool, gamepad: bool, serial: bool, midi: bool) -> CwAppModel {
    CwAppModel {
        keyboard,
        gamepad,
        serial,
        midi,
        dit: DebouncerModel { state: false, counter: 0, threshold: PADDLE_DEBOUNCE as nat },
        dah: DebouncerModel { state: false, counter: 0, threshold: PADDLE_DEBOUNCE as nat },
        prev_dit_ser: false,
        prev_dah_ser: false,
        prev_dit: false,
        prev_dah: false,
    }
}

/// The interface after one raw paddle sample.
pub open spec fn cw_step(m: CwAppModel, raw_dit: bool, raw_dah: bool) -> CwAppModel {
    let dit = debounce_step(m.dit, raw_dit);
    let dah = debounce_step(m.dah, raw_dah);
    let ser_changed = dit.state != m.prev_dit_ser || dah.state != m.prev_dah_ser;
    CwAppModel {
        dit,
        dah,
        prev_dit_ser: if m.serial && ser_changed { dit.state } else { m.prev_dit_ser },
        prev_dah_ser: if m.serial && ser_changed { dah.state } else { m.prev_dah_ser },
        prev_dit: if m.midi { dit.state } else { m.prev_dit },
        prev_dah: if m.midi { dah.state } else { m.prev_dah },
        ..m
    }
}

/// The serial state to send after a sample that gives `next`, if any.
pub open spec fn serial_report(m: CwAppModel, next: CwAppModel) -> Option<(bool, bool)> {
    if m.serial && (next.dit.state != m.prev_dit_ser || next.dah.state != m.prev_dah_ser) {
        Some((next.dit.state, next.dah.state))
    } else {
        None
    }
}

/// The MIDI bytes to send after a sample that gives `next`, if any.
pub open spec fn midi_report(m: CwAppModel, next: CwAppModel) -> Option<Seq<u8>> {
    let dit_changed = next.dit.state != m.prev_dit;
    let dah_changed = next.dah.state != m.prev_dah;
    if m.midi && (dit_changed || dah_changed) {
        Some(paddle_midi(dit_changed, next.dit.state, dah_changed, next.dah.state))
    } else {
        None
    }
}

/// The paddle interface: debounces both paddles and decides, for each
/// present interface, what to report to the host. Keyboard and gamepad
/// reports go out on every sample; serial state and MIDI notes only on change.
pub struct CwApp {
    keyboard: bool,
    gamepad: bool,
    serial: bool,
    midi: bool,
    dit_debounce: Debouncer,
    dah_debounce: Debouncer,
    prev_dit_ser: bool,
    prev_dah_ser: bool,
    prev_dit: bool,
    prev_dah: bool,
}

impl View for CwApp {
    type V = CwAppModel;

    closed spec fn view(&self) -> CwAppModel {
        CwAppModel {
            keyboard: self.keyboard,
            gamepad: self.gamepad,
            serial: self.serial,
            midi: self.midi,
            dit: self.dit_debounce@,
            dah: self.dah_debounce@,
            prev_dit_ser: self.prev_dit_ser,
            prev_dah_ser: self.prev_dah_ser,
            prev_dit: self.prev_dit,
            prev_dah: self.prev_dah,
        }
    }
}

impl CwApp {
    /// The interface with the given USB interfaces present, both paddles
    /// released (active-low contacts at rest read as not pressed) and nothing
    /// reported yet.
    pub fn new(keyboard: bool, gamepad: bool, serial: bool, midi: bool) -> (app: Self)
        ensures
            app@ == fresh_cw_model(keyboard, gamepad, serial, midi),
    {
        CwApp {
            keyboard,
            gamepad,
            serial,
            midi,
            dit_debounce: Debouncer::new(false, PADDLE_DEBOUNCE),
            dah_debounce: Debouncer::new(false, PADDLE_DEBOUNCE),
            prev_dit_ser: false,
            prev_dah_ser: false,
            prev_dit: false,
            prev_dah: false,
        }
    }

    /// The interface with the USB interfaces that a launch mode presents.
    pub fn for_mode(mode: LaunchMode) -> (app: Self)
        ensures
            app@.keyboard == (mode == LaunchMode::Composite || mode == LaunchMode::KeyboardOnly),
            app@.gamepad == (mode == LaunchMode::Composite || mode == LaunchMode::GamepadOnly),
            app@.serial == (mode == LaunchMode::Composite || mode == LaunchMode::SerialOnly),
            app@.midi == (mode == LaunchMode::Composite || mode == LaunchMode::MidiOnly),
            app@ == fresh_cw_model(app@.keyboard, app@.gamepad, app@.serial, app@.midi),
    {
        CwApp::new(mode.keyboard_enabled(), mode.gamepad_enabled(), mode.serial_enabled(), mode.midi_enabled())
    }

    /// Whether the keyboard interface is present.
    pub fn keyboard(&self) -> (b: bool)
        ensures
            b == self@.keyboard,
    {
        self.keyboard
    }

    /// Whether the gamepad interface is present.
    pub fn gamepad(&self) -> (b: bool)
        ensures
            b == self@.gamepad,
    {
        self.gamepad
    }

    /// Whether the CDC serial interface is present.
    pub fn serial(&self) -> (b: bool)
        ensures
            b == self@.serial,
    {
        self.serial
    }

    /// Whether the MIDI interface is present.
    pub fn midi(&self) -> (b: bool)
        ensures
            b == self@.midi,
    {
        self.midi
    }

    /// Feeds one raw sample of each paddle (true = pressed) and returns what
    /// to send to the host.
    pub fn step(&mut self, raw_dit: bool, raw_dah: bool) -> (r: CwReports)
        ensures
            final(self)@ == cw_step(old(self)@, raw_dit, raw_dah),
            r.dit == final(self)@.dit.state,
            r.dah == final(self)@.dah.state,
            match r.keyboard {
                Some(k) => old(self)@.keyboard && k@ == keycodes_spec(r.dit, r.dah),
                None => !old(self)@.keyboard,
            },
            match r.gamepad {
                Some(g) => old(self)@.gamepad && g.buttons == gamepad_buttons(r.dit, r.dah),
                None => !old(self)@.gamepad,
            },
            r.serial == serial_report(old(self)@, final(self)@),
            r.serial matches Some(pair) ==> pair == (r.dit, r.dah),
            match r.midi {
                Some(v) => midi_report(old(self)@, final(self)@) == Some(v@),
                None => midi_report(old(self)@, final(self)@) is None,
            },
    {
        let dit_pressed = self.dit_debounce.update(raw_dit);
        let dah_pressed = self.dah_debounce.update(raw_dah);

        let keyboard = if self.keyboard {
            Some(keyboard_keycodes(dit_pressed, dah_pressed))
        } else {
            None
        };

        let gamepad = if self.gamepad {
            Some(GamepadReport::from_paddles(dit_pressed, dah_pressed))
        } else {
            None
        };

        let mut serial = None;
        if self.serial && (dit_pressed != self.prev_dit_ser || dah_pressed != self.prev_dah_ser) {
            serial = Some((dit_pressed, dah_pressed));
            self.prev_dit_ser = dit_pressed;
            self.prev_dah_ser = dah_pressed;
        }

        let mut midi = None;
        if self.midi {
            let dit_changed = dit_pressed != self.prev_dit;
            let dah_changed = dah_pressed != self.prev_dah;
            if dit_changed || dah_changed {
                midi = Some(paddle_midi_packet(dit_changed, dit_pressed, dah_changed, dah_pressed));
                if dit_changed {
                    self.prev_dit = dit_pressed;
                }
                if dah_changed {
                    self.prev_dah = dah_pressed;
                }
            }
        }

        CwReports { dit: dit_pressed, dah: dah_pressed, keyboard, gamepad, serial, midi }
    }
}

/// Serial state and MIDI notes are event-driven and always bring the host up
/// to date: after any sample, the levels last reported over each present
/// channel are the current debounced levels, so a sample that leaves both
/// debounced levels unchanged reports nothing over serial or MIDI.
pub proof fn lemma_reports_track_paddles(m: CwAppModel, raw_dit: bool, raw_dah: bool, raw_dit2: bool, raw_dah2: bool)
    ensures
        ({
            let m1 = cw_step(m, raw_dit, raw_dah);
            let m2 = cw_step(m1, raw_dit2, raw_dah2);
            &&& m.serial ==> m1.prev_dit_ser == m1.dit.state && m1.prev_dah_ser == m1.dah.state
            &&& m.midi ==> m1.prev_dit == m1.dit.state && m1.prev_dah == m1.dah.state
            &&& (m2.dit.state == m1.dit.state && m2.dah.state == m1.dah.state) ==> {
                &&& serial_report(m1, m2) is None
                &&& midi_report(m1, m2) is None
            }
        }),
{
}

/// Each MIDI note alternates between Note On and Note Off: a paddle's note
/// is sent only when its debounced level differs from the one last sent, and
/// the message is Note On exactly when the paddle is now pressed.
pub proof fn lemma_midi_note_alternates(m: CwAppModel, raw_dit: bool, raw_dah: bool)
    ensures
        ({
            let m1 = cw_step(m, raw_dit, raw_dah);
            midi_report(m, m1) matches Some(bytes) ==> {
                &&& m.midi
                &&& bytes.len() == 4 || bytes.len() == 8
                &&& m1.dit.state != m.prev_dit ==> bytes.subrange(0, 4) == note_packet(MIDI_NOTE_DIT, m1.dit.state)
                &&& m1.dit.state == m.prev_dit ==> bytes == note_packet(MIDI_NOTE_DAH, m1.dah.state)
            }
        }),
{
    let m1 = cw_step(m, raw_dit, raw_dah);
    if let Some(bytes) = midi_report(m, m1) {
        if m1.dit.state != m.prev_dit {
            assert(bytes.subrange(0, 4) =~= note_packet(MIDI_NOTE_DIT, m1.dit.state));
        } else {
            assert(bytes =~= note_packet(MIDI_NOTE_DAH, m1.dah.state));
        }
    }
}


/// The CDC serial state is event-driven and always carries both paddles:
/// when serial is present and either debounced level differs from the state
/// last sent, the sample sends exactly (DCD = dit, DSR = dah) and that pair
/// becomes the last sent state; otherwise nothing is sent and the last sent
/// state is kept. Any state sent is the pair of current debounced levels.
pub proof fn lemma_serial_state_report(m: CwAppModel, raw_dit: bool, raw_dah: bool)
    ensures
        ({
            let dit = debounce_step(m.dit, raw_dit).state;
            let dah = debounce_step(m.dah, raw_dah).state;
            let m1 = cw_step(m, raw_dit, raw_dah);
            let changed = dit != m.prev_dit_ser || dah != m.prev_dah_ser;
            &&& m1.dit.state == dit && m1.dah.state == dah
            &&& (m.serial && changed) ==> {
                &&& serial_report(m, m1) == Some((dit, dah))
                &&& m1.prev_dit_ser == dit
                &&& m1.prev_dah_ser == dah
            }
            &&& !(m.serial && changed) ==> {
                &&& serial_report(m, m1) is None
                &&& m1.prev_dit_ser == m.prev_dit_ser
                &&& m1.prev_dah_ser == m.prev_dah_ser
            }
            &&& serial_report(m, m1) matches Some(p) ==> p == (dit, dah)
        }),
{
}


/// The keyboard report holds the dit key exactly when dit is pressed and the
/// dah key exactly when dah is pressed, packed from the first slot with dit
/// first, and leaves every other slot empty; the gamepad report sets bit 0
/// for dit and bit 1 for dah and nothing else.
pub proof fn lemma_hid_reports(dit: bool, dah: bool)
    ensures
        keycodes_spec(dit, dah).len() == 6,
        keycodes_spec(dit, dah).contains(KEY_DIT) <==> dit,
        keycodes_spec(dit, dah).contains(KEY_DAH) <==> dah,
        dit ==> keycodes_spec(dit, dah)[0] == KEY_DIT,
        !dit && dah ==> keycodes_spec(dit, dah)[0] == KEY_DAH,
        dit && dah ==> keycodes_spec(dit, dah)[1] == KEY_DAH,
        forall|i: int| (if dit { 1int } else { 0 }) + (if dah { 1int } else { 0 }) <= i < 6
            ==> keycodes_spec(dit, dah)[i] == 0,
        gamepad_buttons(dit, dah) % 2 == (if dit { 1u8 } else { 0u8 }),
        gamepad_buttons(dit, dah) / 2 == (if dah { 1u8 } else { 0u8 }),
{
    let k = keycodes_spec(dit, dah);
    if dit {
        assert(k[0] == KEY_DIT);
    }
    if dah {
        if dit {
            assert(k[1] == KEY_DAH);
        } else {
            assert(k[0] == KEY_DAH);
        }
    }
    if !dit {
        assert forall|i: int| 0 <= i < k.len() implies k[i] != KEY_DIT by {}
    }
    if !dah {
        assert forall|i: int| 0 <= i < k.len() implies k[i] != KEY_DAH by {}
    }
}

/// A paddle's MIDI packet is a Note On (code index 0x9, status 0x90,
/// velocity 127) on its note when pressed and a Note Off (code index 0x8,
/// status 0x80, velocity 0) on its note when released; dit uses C4 and dah D4.
pub proof fn lemma_note_packets(pressed: bool)
    ensures
        note_packet(MIDI_NOTE_DIT, pressed).len() == 4,
        note_packet(MIDI_NOTE_DIT, pressed)[2] == 60,
        note_packet(MIDI_NOTE_DAH, pressed)[2] == 62,
        note_packet(MIDI_NOTE_DIT, pressed)[0] == (if pressed { 0x09u8 } else { 0x08u8 }),
        note_packet(MIDI_NOTE_DIT, pressed)[1] == (if pressed { 0x90u8 } else { 0x80u8 }),
        note_packet(MIDI_NOTE_DIT, pressed)[3] == (if pressed { 0x7Fu8 } else { 0x00u8 }),
        note_packet(MIDI_NOTE_DAH, pressed)[1] == (if pressed { 0x90u8 } else { 0x80u8 }),
        note_packet(MIDI_NOTE_DAH, pressed)[3] == (if pressed { 0x7Fu8 } else { 0x00u8 }),
        paddle_midi(true, pressed, false, false) == note_packet(MIDI_NOTE_DIT, pressed),
        paddle_midi(false, false, true, pressed) == note_packet(MIDI_NOTE_DAH, pressed),
        paddle_midi(false, false, false, false).len() == 0,
{
    assert(paddle_midi(true, pressed, false, false) =~= note_packet(MIDI_NOTE_DIT, pressed));
    assert(paddle_midi(false, false, true, pressed) =~= note_packet(MIDI_NOTE_DAH, pressed));
}

} // verus!

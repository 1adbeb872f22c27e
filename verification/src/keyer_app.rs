//! Decisions of the stand-alone keyer: settings received as MIDI control
//! changes, the two command buttons (speed and mode), and the mapping of the
//! formed key line to MIDI notes and the sidetone.
use vstd::prelude::*;

pub use crate::debounce::Debouncer;
use crate::debounce::{DebouncerModel, debounce_step};

verus! {

/// MIDI note of the formed key-line signal (C4).
pub const MIDI_NOTE_KEY: u8 = 60;

/// Ticks (ms) a command button must be held before it starts repeating.
pub const BTN_INITIAL_DELAY: u16 = 500;

/// Ticks (ms) between repeats of a held command button.
pub const BTN_REPEAT_RATE: u16 = 100;

/// Ticks (ms) a lone button must be held before its auto-repeat is armed,
/// leaving time to press the other button as well.
pub const BTN_BOTH_WINDOW: u16 = 50;

/// Slowest keying speed in words per minute.
pub const SPEED_MIN: u8 = 5;

/// Fastest keying speed in words per minute.
pub const SPEED_MAX: u8 = 60;

/// Status byte of a control change on MIDI channel 16.
pub const CC_STATUS_CHANNEL_16: u8 = 0xBF;

/// Controller number of the keyer mode (value 0..=5).
pub const CC_MODE: u8 = 1;
/// Controller number of the speed in words per minute.
pub const CC_SPEED_WPM: u8 = 2;
/// Controller number of the dit/dah weight (25..=75).
pub const CC_WEIGHT: u8 = 3;
/// Controller number of the paddle swap (non-zero = swapped).
pub const CC_KEYS_REVERSED: u8 = 4;
/// Controller number of the Iambic B timing in percent (up to 100).
pub const CC_IAMBIC_B_TIMING: u8 = 5;
/// Controller number of the keying compensation in ms (up to 50).
pub const CC_KEYING_COMP: u8 = 6;
/// Controller number of the Farnsworth speed in WPM (up to 60).
pub const CC_FARNSWORTH: u8 = 7;
/// Controller number of the PTT hang time, in units of 10 ms.
pub const CC_HANG_TIME: u8 = 8;
/// Controller number of automatic character spacing (non-zero = on).
pub const CC_AUTO_SPACING: u8 = 9;
/// Controller number of the dynamic dit/dah ratio (non-zero = on).
pub const CC_DYNAMIC_RATIO: u8 = 10;

/// How the keyer engine turns paddle contacts into a key line.
#[derive(Debug, Clone, Copy, PartialEq, Eq, Structural)]
pub enum KeyerMode {
    Straight,
    IambicA,
    IambicB,
    Bug,
    Ultimatic,
    SinglePaddle,
}

/// The keyer engine's settings that this firmware reads and writes.
#[derive(Debug, Clone, Copy, PartialEq, Eq, Structural)]
pub struct KeyerSettings {
    pub mode: KeyerMode,
    pub speed_wpm: u8,
    pub weight: u8,
    pub keys_reversed: bool,
    pub iambic_b_timing_percent: u8,
    pub keying_compensation_ms: u8,
    pub farnsworth_wpm: u8,
    pub hang_time_ms: u32,
    pub auto_spacing: bool,
    pub dynamic_ratio: bool,
}

/// A single keyer setting received as a MIDI control change.
#[derive(Debug, Clone, Copy, PartialEq, Eq, Structural)]
pub enum ConfigUpdate {
    Mode(KeyerMode),
    SpeedWpm(u8),
    Weight(u8),
    KeysReversed(bool),
    IambicBTiming(u8),
    KeyingComp(u8),
    Farnsworth(u8),
    HangTime(u32),
    AutoSpacing(bool),
    DynamicRatio(bool),
}

/// `v` limited to the closed range `lo..=hi`.
pub open spec fn clamp_spec(v: int, lo: int, hi: int) -> int {
    if v < lo {
        lo
    } else if v > hi {
        hi
    } else {
        v
    }
}

/// The keyer mode that a `CC_MODE` value selects, if any.
pub open spec fn mode_from_value(val: u8) -> Option<KeyerMode> {
    if val == 0 {
        Some(KeyerMode::Straight)
    } else if val == 1 {
        Some(KeyerMode::IambicA)
    } else if val == 2 {
        Some(KeyerMode::IambicB)
    } else if val == 3 {
        Some(KeyerMode::Bug)
    } else if val == 4 {
        Some(KeyerMode::Ultimatic)
    } else if val == 5 {
        Some(KeyerMode::SinglePaddle)
    } else {
        None
    }
}

/// The setting that control change `cc` with value `val` carries, if any.
/// Values are limited to the range each setting accepts.
pub open spec fn cc_update(cc: u8, val: u8) -> Option<ConfigUpdate> {
    if cc == CC_MODE {
        match mode_from_value(val) {
            Some(m) => Some(ConfigUpdate::Mode(m)),
            None => None,
        }
    } else if cc == CC_SPEED_WPM {
        Some(ConfigUpdate::SpeedWpm(clamp_spec(val as int, SPEED_MIN as int, SPEED_MAX as int) as u8))
    } else if cc == CC_WEIGHT {
        Some(ConfigUpdate::Weight(clamp_spec(val as int, 25, 75) as u8))
    } else if cc == CC_KEYS_REVERSED {
        Some(ConfigUpdate::KeysReversed(val != 0))
    } else if cc == CC_IAMBIC_B_TIMING {
        Some(ConfigUpdate::IambicBTiming(if val > 100 { 100u8 } else { val }))
    } else if cc == CC_KEYING_COMP {
        Some(ConfigUpdate::KeyingComp(if val > 50 { 50u8 } else { val }))
    } else if cc == CC_FARNSWORTH {
        Some(ConfigUpdate::Farnsworth(if val > 60 { 60u8 } else { val }))
    } else if cc == CC_HANG_TIME {
        Some(ConfigUpdate::HangTime((val * 10) as u32))
    } else if cc == CC_AUTO_SPACING {
        Some(ConfigUpdate::AutoSpacing(val != 0))
    } else if cc == CC_DYNAMIC_RATIO {
        Some(ConfigUpdate::DynamicRatio(val != 0))
    } else {
        None
    }
}

/// The setting carried by a USB-MIDI event packet
/// `[cable/code index, status, controller, value]`: only control changes on
/// channel 16 (status `0xBF`) carry settings.
pub open spec fn spec_parse_midi_cc(packet: Seq<u8>) -> Option<ConfigUpdate> {
    if packet.len() < 4 || packet[1] != CC_STATUS_CHANNEL_16 {
        None
    } else {
        cc_update(packet[2], packet[3])
    }
}

/// `v` limited to `lo..=hi`.
fn clamp_u8(v: u8, lo: u8, hi: u8) -> (r: u8)
    requires
        lo <= hi,
    ensures
        r == clamp_spec(v as int, lo as int, hi as int),
{
    if v < lo {
        lo
    } else if v > hi {
        hi
    } else {
        v
    }
}

fn mode_for_value(val: u8) -> (m: Option<KeyerMode>)
    ensures
        m == mode_from_value(val),
{
    if val == 0 {
        Some(KeyerMode::Straight)
    } else if val == 1 {
        Some(KeyerMode::IambicA)
    } else if val == 2 {
        Some(KeyerMode::IambicB)
    } else if val == 3 {
        Some(KeyerMode::Bug)
    } else if val == 4 {
        Some(KeyerMode::Ultimatic)
    } else if val == 5 {
        Some(KeyerMode::SinglePaddle)
    } else {
        None
    }
}

fn parse_cc_message(status: u8, cc: u8, val: u8) -> (u: Option<ConfigUpdate>)
    ensures
        u == (if status != CC_STATUS_CHANNEL_16 { None } else { cc_update(cc, val) }),
{
    if status != CC_STATUS_CHANNEL_16 {
        return None;
    }
    if cc == CC_MODE {
        match mode_for_value(val) {
            Some(m) => Some(ConfigUpdate::Mode(m)),
            None => None,
        }
    } else if cc == CC_SPEED_WPM {
        Some(ConfigUpdate::SpeedWpm(clamp_u8(val, SPEED_MIN, SPEED_MAX)))
    } else if cc == CC_WEIGHT {
        Some(ConfigUpdate::Weight(clamp_u8(val, 25, 75)))
    } else if cc == CC_KEYS_REVERSED {
        Some(ConfigUpdate::KeysReversed(val != 0))
    } else if cc == CC_IAMBIC_B_TIMING {
        Some(ConfigUpdate::IambicBTiming(clamp_u8(val, 0, 100)))
    } else if cc == CC_KEYING_COMP {
        Some(ConfigUpdate::KeyingComp(clamp_u8(val, 0, 50)))
    } else if cc == CC_FARNSWORTH {
        Some(ConfigUpdate::Farnsworth(clamp_u8(val, 0, 60)))
    } else if cc == CC_HANG_TIME {
        Some(ConfigUpdate::HangTime(val as u32 * 10))
    } else if cc == CC_AUTO_SPACING {
        Some(ConfigUpdate::AutoSpacing(val != 0))
    } else if cc == CC_DYNAMIC_RATIO {
        Some(ConfigUpdate::DynamicRatio(val != 0))
    } else {
        None
    }
}

/// Parses a USB-MIDI control-change packet on channel 16 into a setting.
pub fn parse_midi_cc(packet: &[u8]) -> (u: Option<ConfigUpdate>)
    ensures
        u == spec_parse_midi_cc(packet@),
{
    if packet.len() < 4 {
        return None;
    }
    parse_cc_message(packet[1], packet[2], packet[3])
}


/// The settings carried by the first `n` four-byte packets of a received
/// buffer, in order, skipping packets that carry none.
pub open spec fn spec_parse_packets(data: Seq<u8>, n: nat) -> Seq<ConfigUpdate>
    decreases n,
{
    if n == 0 {
        Seq::empty()
    } else {
        let prev = spec_parse_packets(data, (n - 1) as nat);
        let start = 4 * (n - 1);
        match spec_parse_midi_cc(data.subrange(start, start + 4)) {
            Some(u) => prev.push(u),
            None => prev,
        }
    }
}

/// Parses every whole four-byte USB-MIDI packet of a received buffer, in
/// order, and returns the settings they carry. A trailing partial packet is
/// ignored.
pub fn parse_midi_cc_packets(data: &[u8]) -> (updates: Vec<ConfigUpdate>)
    ensures
        updates@ == spec_parse_packets(data@, data@.len() / 4),
{
    let mut updates: Vec<ConfigUpdate> = Vec::new();
    let mut offset: usize = 0;
    while data.len() - offset >= 4
        invariant
            offset % 4 == 0,
            offset <= data.len(),
            updates@ == spec_parse_packets(data@, offset as nat / 4),
        decreases data.len() - offset,
    {
        proof {
            let packet = data@.subrange(offset as int, offset + 4);
            assert(packet[1] == data@[offset + 1]);
            assert(packet[2] == data@[offset + 2]);
            assert(packet[3] == data@[offset + 3]);
        }
        if let Some(update) = parse_cc_message(data[offset + 1], data[offset + 2], data[offset + 3]) {
            updates.push(update);
        }
        offset = offset + 4;
    }
    updates
}

/// The settings after one received update: the field the update names takes
/// its value, every other field is kept.
pub open spec fn spec_apply_update(s: KeyerSettings, u: ConfigUpdate) -> KeyerSettings {
    match u {
        ConfigUpdate::Mode(m) => KeyerSettings { mode: m, ..s },
        ConfigUpdate::SpeedWpm(v) => KeyerSettings { speed_wpm: v, ..s },
        ConfigUpdate::Weight(v) => KeyerSettings { weight: v, ..s },
        ConfigUpdate::KeysReversed(v) => KeyerSettings { keys_reversed: v, ..s },
        ConfigUpdate::IambicBTiming(v) => KeyerSettings { iambic_b_timing_percent: v, ..s },
        ConfigUpdate::KeyingComp(v) => KeyerSettings { keying_compensation_ms: v, ..s },
        ConfigUpdate::Farnsworth(v) => KeyerSettings { farnsworth_wpm: v, ..s },
        ConfigUpdate::HangTime(v) => KeyerSettings { hang_time_ms: v, ..s },
        ConfigUpdate::AutoSpacing(v) => KeyerSettings { auto_spacing: v, ..s },
        ConfigUpdate::DynamicRatio(v) => KeyerSettings { dynamic_ratio: v, ..s },
    }
}

/// Applies one received setting to the keyer settings.
pub fn apply_config_update(settings: &mut KeyerSettings, update: ConfigUpdate)
    ensures
        *final(settings) == spec_apply_update(*old(settings), update),
{
    match update {
        ConfigUpdate::Mode(m) => settings.mode = m,
        ConfigUpdate::SpeedWpm(v) => settings.speed_wpm = v,
        ConfigUpdate::Weight(v) => settings.weight = v,
        ConfigUpdate::KeysReversed(v) => settings.keys_reversed = v,
        ConfigUpdate::IambicBTiming(v) => settings.iambic_b_timing_percent = v,
        ConfigUpdate::KeyingComp(v) => settings.keying_compensation_ms = v,
        ConfigUpdate::Farnsworth(v) => settings.farnsworth_wpm = v,
        ConfigUpdate::HangTime(v) => settings.hang_time_ms = v,
        ConfigUpdate::AutoSpacing(v) => settings.auto_spacing = v,
        ConfigUpdate::DynamicRatio(v) => settings.dynamic_ratio = v,
    }
}

/// The mode that pressing both command buttons switches to:
/// Iambic B, Iambic A, Straight, Bug, Ultimatic, Single paddle, and round again.
pub open spec fn spec_next_mode(m: KeyerMode) -> KeyerMode {
    match m {
        KeyerMode::IambicB => KeyerMode::IambicA,
        KeyerMode::IambicA => KeyerMode::Straight,
        KeyerMode::Straight => KeyerMode::Bug,
        KeyerMode::Bug => KeyerMode::Ultimatic,
        KeyerMode::Ultimatic => KeyerMode::SinglePaddle,
        KeyerMode::SinglePaddle => KeyerMode::IambicB,
    }
}

/// `m` advanced `k` times through the mode cycle.
pub open spec fn mode_after(m: KeyerMode, k: nat) -> KeyerMode
    decreases k,
{
    if k == 0 {
        m
    } else {
        spec_next_mode(mode_after(m, (k - 1) as nat))
    }
}

/// The next mode in the command-button mode cycle.
pub fn next_keyer_mode(mode: KeyerMode) -> (next: KeyerMode)
    ensures
        next == spec_next_mode(mode),
{
    match mode {
        KeyerMode::IambicB => KeyerMode::IambicA,
        KeyerMode::IambicA => KeyerMode::Straight,
        KeyerMode::Straight => KeyerMode::Bug,
        KeyerMode::Bug => KeyerMode::Ultimatic,
        KeyerMode::Ultimatic => KeyerMode::SinglePaddle,
        KeyerMode::SinglePaddle => KeyerMode::IambicB,
    }
}

/// The mode cycle visits all six modes: six presses return to the starting
/// mode, and fewer than six never do.
pub proof fn lemma_mode_cycle(m: KeyerMode)
    ensures
        mode_after(m, 6) == m,
        forall|k: nat| 0 < k < 6 ==> #[trigger] mode_after(m, k) != m,
{
    reveal_with_fuel(mode_after, 7);
}

/// From any mode, the command-button cycle reaches every mode within five
/// presses.
pub proof fn lemma_mode_cycle_reaches_all(from: KeyerMode, to: KeyerMode)
    ensures
        exists|k: nat| k < 6 && #[trigger] mode_after(from, k) == to,
{
    reveal_with_fuel(mode_after, 7);
    if mode_after(from, 0) == to {
        assert(mode_after(from, 0) == to);
    } else if mode_after(from, 1) == to {
        assert(mode_after(from, 1) == to);
    } else if mode_after(from, 2) == to {
        assert(mode_after(from, 2) == to);
    } else if mode_after(from, 3) == to {
        assert(mode_after(from, 3) == to);
    } else if mode_after(from, 4) == to {
        assert(mode_after(from, 4) == to);
    } else {
        assert(mode_after(from, 5) == to);
    }
}


/// Model of a command button's auto-repeat: ticks held since the last firing
/// and whether the first, delayed firing has happened.
pub struct RepeatModel {
    pub held_ms: nat,
    pub fired_initial: bool,
}

/// The auto-repeat state of a button that is not held.
pub open spec fn repeat_released() -> RepeatModel {
    RepeatModel { held_ms: 0, fired_initial: false }
}

/// `x + 1`, saturating at the largest `u16`.
pub open spec fn sat_inc_u16(x: nat) -> nat {
    if x + 1 > u16::MAX {
        u16::MAX as nat
    } else {
        x + 1
    }
}

/// One tick of a held button: the repeat state after it, and whether the
/// button's action fires on it. The first firing comes after
/// `BTN_INITIAL_DELAY` ticks, later ones every `BTN_REPEAT_RATE` ticks.
pub open spec fn repeat_tick(r: RepeatModel) -> (RepeatModel, bool) {
    let held = sat_inc_u16(r.held_ms);
    if !r.fired_initial {
        if held >= BTN_INITIAL_DELAY {
            (RepeatModel { held_ms: 0, fired_initial: true }, true)
        } else {
            (RepeatModel { held_ms: held, fired_initial: false }, false)
        }
    } else if held >= BTN_REPEAT_RATE {
        (RepeatModel { held_ms: 0, fired_initial: true }, true)
    } else {
        (RepeatModel { held_ms: held, fired_initial: true }, false)
    }
}

/// The repeat state after a button has been held for `n` ticks from release.
pub open spec fn repeat_after(n: nat) -> RepeatModel
    decreases n,
{
    if n == 0 {
        repeat_released()
    } else {
        repeat_tick(repeat_after((n - 1) as nat)).0
    }
}

/// Whether the action fires on the `n`-th tick (counted from 1) of a hold.
pub open spec fn fires_on_tick(n: nat) -> bool
    recommends
        n > 0,
{
    repeat_tick(repeat_after((n - 1) as nat)).1
}

/// Auto-repeat of a held command button.
pub struct ButtonRepeat {
    held_ms: u16,
    fired_initial: bool,
}

impl View for ButtonRepeat {
    type V = RepeatModel;

    closed spec fn view(&self) -> RepeatModel {
        RepeatModel { held_ms: self.held_ms as nat, fired_initial: self.fired_initial }
    }
}

impl ButtonRepeat {
    /// The state of a button that is not held.
    pub fn new() -> (r: Self)
        ensures
            r@ == repeat_released(),
    {
        ButtonRepeat { held_ms: 0, fired_initial: false }
    }

    /// Ticks while the button is held; returns true when the action should fire.
    pub fn tick_held(&mut self) -> (fire: bool)
        ensures
            (final(self)@, fire) == repeat_tick(old(self)@),
    {
        self.held_ms = self.held_ms.saturating_add(1);
        if !self.fired_initial {
            if self.held_ms >= BTN_INITIAL_DELAY {
                self.fired_initial = true;
                self.held_ms = 0;
                return true;
            }
        } else if self.held_ms >= BTN_REPEAT_RATE {
            self.held_ms = 0;
            return true;
        }
        false
    }

    /// Forgets the hold, as when the button is released.
    pub fn reset(&mut self)
        ensures
            final(self)@ == repeat_released(),
    {
        self.held_ms = 0;
        self.fired_initial = false;
    }
}

/// The repeat state after a hold of `n` ticks, in closed form.
proof fn lemma_repeat_after(n: nat)
    ensures
        repeat_after(n) == (if n < BTN_INITIAL_DELAY {
            RepeatModel { held_ms: n, fired_initial: false }
        } else {
            RepeatModel {
                held_ms: ((n - BTN_INITIAL_DELAY) % (BTN_REPEAT_RATE as int)) as nat,
                fired_initial: true,
            }
        }),
    decreases n,
{
    if n > 0 {
        lemma_repeat_after((n - 1) as nat);
    }
}

/// A held command button fires its action first on the `BTN_INITIAL_DELAY`-th
/// tick of the hold and then on every `BTN_REPEAT_RATE`-th tick after that,
/// and on no other tick.
pub proof fn lemma_repeat_timing(n: nat)
    requires
        n > 0,
    ensures
        fires_on_tick(n) <==> (n >= BTN_INITIAL_DELAY && (n - BTN_INITIAL_DELAY) % (BTN_REPEAT_RATE as int) == 0),
{
    lemma_repeat_after((n - 1) as nat);
}


/// Model of the command-button logic between ticks: the buttons' debounced
/// levels on the previous tick, their auto-repeat states, how long a single
/// button has been held alone, and whether the current two-button press has
/// already switched the mode.
pub struct ButtonsModel {
    pub prev_a: bool,
    pub prev_b: bool,
    pub a_repeat: RepeatModel,
    pub b_repeat: RepeatModel,
    pub single_btn_ms: nat,
    pub both_handled: bool,
}

/// The settings with the speed one word per minute lower, unless already at
/// `SPEED_MIN` or below.
pub open spec fn speed_down(s: KeyerSettings) -> KeyerSettings {
    if s.speed_wpm > SPEED_MIN {
        KeyerSettings { speed_wpm: (s.speed_wpm - 1) as u8, ..s }
    } else {
        s
    }
}

/// The settings with the speed one word per minute higher, unless already at
/// `SPEED_MAX` or above.
pub open spec fn speed_up(s: KeyerSettings) -> KeyerSettings {
    if s.speed_wpm < SPEED_MAX {
        KeyerSettings { speed_wpm: (s.speed_wpm + 1) as u8, ..s }
    } else {
        s
    }
}

/// One tick of a button held alone: its first tick fires at once; later
/// ticks count the time held alone and, once that exceeds `BTN_BOTH_WINDOW`,
/// drive the auto-repeat. Returns the new alone-time, the new repeat state and
/// whether the action fires.
pub open spec fn lone_press(rising: bool, single_btn_ms: nat, repeat: RepeatModel) -> (nat, RepeatModel, bool) {
    if rising {
        (0, repeat, true)
    } else {
        let single = sat_inc_u16(single_btn_ms);
        if single > BTN_BOTH_WINDOW {
            let (r, fire) = repeat_tick(repeat);
            (single, r, fire)
        } else {
            (single, repeat, false)
        }
    }
}

/// One tick of the command buttons with debounced levels `a` (speed down)
/// and `b` (speed up): both together switch to the next mode once per press;
/// one alone changes the speed at once and then by auto-repeat; releasing
/// clears the auto-repeat.
pub open spec fn buttons_step(bm: ButtonsModel, s: KeyerSettings, a: bool, b: bool) -> (ButtonsModel, KeyerSettings) {
    let (bm1, s1) = if a && b {
        (
            ButtonsModel {
                a_repeat: repeat_released(),
                b_repeat: repeat_released(),
                single_btn_ms: 0,
                both_handled: true,
                ..bm
            },
            if !bm.both_handled { KeyerSettings { mode: spec_next_mode(s.mode), ..s } } else { s },
        )
    } else if a {
        let (single, r, fire) = lone_press(!bm.prev_a, bm.single_btn_ms, bm.a_repeat);
        (
            ButtonsModel { a_repeat: r, b_repeat: repeat_released(), single_btn_ms: single, ..bm },
            if fire { speed_down(s) } else { s },
        )
    } else if b {
        let (single, r, fire) = lone_press(!bm.prev_b, bm.single_btn_ms, bm.b_repeat);
        (
            ButtonsModel { b_repeat: r, a_repeat: repeat_released(), single_btn_ms: single, ..bm },
            if fire { speed_up(s) } else { s },
        )
    } else {
        (
            ButtonsModel {
                a_repeat: repeat_released(),
                b_repeat: repeat_released(),
                single_btn_ms: 0,
                both_handled: false,
                ..bm
            },
            s,
        )
    };
    let released = (!a && bm.prev_a) || (!b && bm.prev_b);
    let bm2 = if released {
        ButtonsModel { a_repeat: repeat_released(), b_repeat: repeat_released(), ..bm1 }
    } else {
        bm1
    };
    (ButtonsModel { prev_a: a, prev_b: b, ..bm2 }, s1)
}

/// What the keyer engine reports on a tick.
#[derive(Debug, Clone, Copy, PartialEq, Eq, Structural)]
pub enum KeyerOutput {
    KeyDown,
    KeyUp,
    PttRequest,
}

/// The key-line level that an engine report sets, if it sets one.
pub open spec fn key_level(output: Option<KeyerOutput>) -> Option<bool> {
    match output {
        Some(KeyerOutput::KeyDown) => Some(true),
        Some(KeyerOutput::KeyUp) => Some(false),
        _ => None,
    }
}

/// The USB-MIDI packet for a key-line change: Note On for key down,
/// Note Off for key up, on `MIDI_NOTE_KEY`.
pub open spec fn key_note_packet(key_down: bool) -> Seq<u8> {
    if key_down {
        seq![0x09u8, 0x90u8, MIDI_NOTE_KEY, 0x7Fu8]
    } else {
        seq![0x08u8, 0x80u8, MIDI_NOTE_KEY, 0x00u8]
    }
}

/// One tick of a button held alone, on the time held alone and the button's
/// auto-repeat state; returns whether the button's action fires.
fn lone_press_tick(rising: bool, single_btn_ms: &mut u16, repeat: &mut ButtonRepeat) -> (fire: bool)
    ensures
        (*final(single_btn_ms) as nat, final(repeat)@, fire) == lone_press(rising, *old(single_btn_ms) as nat, old(repeat)@),
{
    if rising {
        *single_btn_ms = 0;
        true
    } else {
        *single_btn_ms = single_btn_ms.saturating_add(1);
        *single_btn_ms > BTN_BOTH_WINDOW && repeat.tick_held()
    }
}

/// Lowers the speed by one word per minute, not below `SPEED_MIN`.
fn lower_speed(settings: &mut KeyerSettings)
    ensures
        *final(settings) == speed_down(*old(settings)),
{
    if settings.speed_wpm > SPEED_MIN {
        settings.speed_wpm = settings.speed_wpm - 1;
    }
}

/// Raises the speed by one word per minute, not above `SPEED_MAX`.
fn raise_speed(settings: &mut KeyerSettings)
    ensures
        *final(settings) == speed_up(*old(settings)),
{
    if settings.speed_wpm < SPEED_MAX {
        settings.speed_wpm = settings.speed_wpm + 1;
    }
}

/// What to do when the key line changes: the new level, the sidetone level
/// to set (none when the sidetone is disabled) and the MIDI packet to send.
#[derive(Debug, Clone, Copy, PartialEq, Eq)]
pub struct KeyEvent {
    pub key_down: bool,
    pub buzzer: Option<bool>,
    pub midi_packet: [u8; 4],
}

/// Model of the keyer application between ticks.
pub struct KeyerAppModel {
    pub settings: KeyerSettings,
    pub sidetone_enabled: bool,
    pub dit: DebouncerModel,
    pub dah: DebouncerModel,
    pub btn_a: DebouncerModel,
    pub btn_b: DebouncerModel,
    pub buttons: ButtonsModel,
    pub prev_key_down: bool,
}

/// Samples a paddle contact must agree on before the paddle level changes.
pub const PADDLE_DEBOUNCE: u8 = 8;

/// Samples a command button must agree on before its level changes.
pub const BUTTON_DEBOUNCE: u8 = 20;

/// The keyer application: paddle and button debouncing, the command buttons,
/// and the mapping of the engine's key line to MIDI and the sidetone.
pub struct KeyerApp {
    settings: KeyerSettings,
    sidetone_enabled: bool,
    dit_debounce: Debouncer,
    dah_debounce: Debouncer,
    btn_a_debounce: Debouncer,
    btn_b_debounce: Debouncer,
    prev_key_down: bool,
    prev_btn_a: bool,
    prev_btn_b: bool,
    btn_a_repeat: ButtonRepeat,
    btn_b_repeat: ButtonRepeat,
    single_btn_ms: u16,
    both_handled: bool,
}

impl View for KeyerApp {
    type V = KeyerAppModel;

    closed spec fn view(&self) -> KeyerAppModel {
        KeyerAppModel {
            settings: self.settings,
            sidetone_enabled: self.sidetone_enabled,
            dit: self.dit_debounce@,
            dah: self.dah_debounce@,
            btn_a: self.btn_a_debounce@,
            btn_b: self.btn_b_debounce@,
            buttons: ButtonsModel {
                prev_a: self.prev_btn_a,
                prev_b: self.prev_btn_b,
                a_repeat: self.btn_a_repeat@,
                b_repeat: self.btn_b_repeat@,
                single_btn_ms: self.single_btn_ms as nat,
                both_handled: self.both_handled,
            },
            prev_key_down: self.prev_key_down,
        }
    }
}

impl KeyerApp {
    /// The application as the keyer loop starts: every input released and
    /// the key line up.
    pub fn new(settings: KeyerSettings, sidetone_enabled: bool) -> (app: Self)
        ensures
            app@ == (KeyerAppModel {
                settings,
                sidetone_enabled,
                dit: DebouncerModel { state: false, counter: 0, threshold: PADDLE_DEBOUNCE as nat },
                dah: DebouncerModel { state: false, counter: 0, threshold: PADDLE_DEBOUNCE as nat },
                btn_a: DebouncerModel { state: false, counter: 0, threshold: BUTTON_DEBOUNCE as nat },
                btn_b: DebouncerModel { state: false, counter: 0, threshold: BUTTON_DEBOUNCE as nat },
                buttons: ButtonsModel {
                    prev_a: false,
                    prev_b: false,
                    a_repeat: repeat_released(),
                    b_repeat: repeat_released(),
                    single_btn_ms: 0,
                    both_handled: false,
                },
                prev_key_down: false,
            }),
    {
        KeyerApp {
            settings,
            sidetone_enabled,
            dit_debounce: Debouncer::new(false, PADDLE_DEBOUNCE),
            dah_debounce: Debouncer::new(false, PADDLE_DEBOUNCE),
            btn_a_debounce: Debouncer::new(false, BUTTON_DEBOUNCE),
            btn_b_debounce: Debouncer::new(false, BUTTON_DEBOUNCE),
            prev_key_down: false,
            prev_btn_a: false,
            prev_btn_b: false,
            btn_a_repeat: ButtonRepeat::new(),
            btn_b_repeat: ButtonRepeat::new(),
            single_btn_ms: 0,
            both_handled: false,
        }
    }

    /// The keyer settings as the buttons and received updates left them.
    pub fn settings(&self) -> (s: KeyerSettings)
        ensures
            s == self@.settings,
    {
        self.settings
    }

    /// Whether key-line changes drive the sidetone buzzer.
    pub fn sidetone_enabled(&self) -> (b: bool)
        ensures
            b == self@.sidetone_enabled,
    {
        self.sidetone_enabled
    }

    /// Applies one setting received over MIDI to the keyer settings.
    pub fn apply_config_update(&mut self, update: ConfigUpdate)
        ensures
            final(self)@ == (KeyerAppModel { settings: spec_apply_update(old(self)@.settings, update), ..old(self)@ }),
    {
        apply_config_update(&mut self.settings, update);
    }

    /// One tick of the inputs: debounces the raw paddle and button contacts
    /// (true = pressed), runs the command-button logic on the settings, and
    /// returns the debounced (dit, dah) levels to feed to the keyer engine.
    pub fn poll_inputs(&mut self, raw_dit: bool, raw_dah: bool, raw_btn_a: bool, raw_btn_b: bool) -> (paddles: (bool, bool))
        ensures
            final(self)@.dit == debounce_step(old(self)@.dit, raw_dit),
            final(self)@.dah == debounce_step(old(self)@.dah, raw_dah),
            final(self)@.btn_a == debounce_step(old(self)@.btn_a, raw_btn_a),
            final(self)@.btn_b == debounce_step(old(self)@.btn_b, raw_btn_b),
            (final(self)@.buttons, final(self)@.settings) == buttons_step(
                old(self)@.buttons,
                old(self)@.settings,
                final(self)@.btn_a.state,
                final(self)@.btn_b.state,
            ),
            final(self)@.sidetone_enabled == old(self)@.sidetone_enabled,
            final(self)@.prev_key_down == old(self)@.prev_key_down,
            paddles == (final(self)@.dit.state, final(self)@.dah.state),
    {
        let dit_pressed = self.dit_debounce.update(raw_dit);
        let dah_pressed = self.dah_debounce.update(raw_dah);
        let a_pressed = self.btn_a_debounce.update(raw_btn_a);
        let b_pressed = self.btn_b_debounce.update(raw_btn_b);
        self.buttons_tick(a_pressed, b_pressed);
        (dit_pressed, dah_pressed)
    }

    /// The command-button logic for one tick, given the buttons' debounced levels.
    fn buttons_tick(&mut self, a_pressed: bool, b_pressed: bool)
        ensures
            (final(self)@.buttons, final(self)@.settings) == buttons_step(old(self)@.buttons, old(self)@.settings, a_pressed, b_pressed),
            final(self)@.dit == old(self)@.dit,
            final(self)@.dah == old(self)@.dah,
            final(self)@.btn_a == old(self)@.btn_a,
            final(self)@.btn_b == old(self)@.btn_b,
            final(self)@.sidetone_enabled == old(self)@.sidetone_enabled,
            final(self)@.prev_key_down == old(self)@.prev_key_down,
    {
        let a_rising = a_pressed && !self.prev_btn_a;
        let b_rising = b_pressed && !self.prev_btn_b;
        let a_falling = !a_pressed && self.prev_btn_a;
        let b_falling = !b_pressed && self.prev_btn_b;

        if a_pressed && b_pressed {
            if !self.both_handled {
                self.both_handled = true;
                self.settings.mode = next_keyer_mode(self.settings.mode);
            }
            self.btn_a_repeat.reset();
            self.btn_b_repeat.reset();
            self.single_btn_ms = 0;
        } else if a_pressed && !b_pressed {
            if lone_press_tick(a_rising, &mut self.single_btn_ms, &mut self.btn_a_repeat) {
                lower_speed(&mut self.settings);
            }
            self.btn_b_repeat.reset();
        } else if b_pressed && !a_pressed {
            if lone_press_tick(b_rising, &mut self.single_btn_ms, &mut self.btn_b_repeat) {
                raise_speed(&mut self.settings);
            }
            self.btn_a_repeat.reset();
        } else {
            self.btn_a_repeat.reset();
            self.btn_b_repeat.reset();
            self.both_handled = false;
            self.single_btn_ms = 0;
        }

        if a_falling || b_falling {
            self.btn_a_repeat.reset();
            self.btn_b_repeat.reset();
        }

        self.prev_btn_a = a_pressed;
        self.prev_btn_b = b_pressed;
    }

    /// Maps the keyer engine's report for this tick to a key-line event.
    /// Only a change of the key line produces one; it carries the sidetone
    /// level (when the sidetone is enabled) and the MIDI note packet.
    pub fn key_output(&mut self, output: Option<KeyerOutput>) -> (event: Option<KeyEvent>)
        ensures
            match key_change(old(self)@.prev_key_down, output) {
                Some(k) => {
                    &&& event matches Some(e)
                    &&& e.key_down == k
                    &&& e.buzzer == (if old(self)@.sidetone_enabled { Some(k) } else { None })
                    &&& e.midi_packet@ == key_note_packet(k)
                    &&& final(self)@ == (KeyerAppModel { prev_key_down: k, ..old(self)@ })
                },
                None => event is None && final(self)@ == old(self)@,
            },
    {
        let key_down = match output {
            Some(KeyerOutput::KeyDown) => true,
            Some(KeyerOutput::KeyUp) => false,
            _ => return None,
        };
        if key_down == self.prev_key_down {
            return None;
        }
        self.prev_key_down = key_down;
        let buzzer = if self.sidetone_enabled { Some(key_down) } else { None };
        let midi_packet = if key_down {
            [0x09u8, 0x90u8, MIDI_NOTE_KEY, 0x7Fu8]
        } else {
            [0x08u8, 0x80u8, MIDI_NOTE_KEY, 0x00u8]
        };
        proof {
            assert(midi_packet@ =~= key_note_packet(key_down));
        }
        Some(KeyEvent { key_down, buzzer, midi_packet })
    }
}


/// Settings within the ranges that the MIDI settings protocol accepts.
pub open spec fn settings_in_range(s: KeyerSettings) -> bool {
    &&& SPEED_MIN <= s.speed_wpm <= SPEED_MAX
    &&& 25 <= s.weight <= 75
    &&& s.iambic_b_timing_percent <= 100
    &&& s.keying_compensation_ms <= 50
    &&& s.farnsworth_wpm <= 60
    &&& s.hang_time_ms <= 2550
}

/// Settings received over MIDI never leave the accepted ranges: applying the
/// setting parsed from any packet to settings in range gives settings in range.
pub proof fn lemma_parsed_update_in_range(s: KeyerSettings, packet: Seq<u8>)
    requires
        settings_in_range(s),
    ensures
        spec_parse_midi_cc(packet) matches Some(u) ==> settings_in_range(spec_apply_update(s, u)),
{
}

/// The command buttons change only the mode and the speed, and keep the
/// speed within `SPEED_MIN..=SPEED_MAX` when it started there.
pub proof fn lemma_buttons_change_only_mode_and_speed(bm: ButtonsModel, s: KeyerSettings, a: bool, b: bool)
    ensures
        ({
            let s1 = buttons_step(bm, s, a, b).1;
            &&& (KeyerSettings { mode: s.mode, speed_wpm: s.speed_wpm, ..s1 }) == s
            &&& SPEED_MIN <= s.speed_wpm <= SPEED_MAX ==> SPEED_MIN <= s1.speed_wpm <= SPEED_MAX
            &&& settings_in_range(s) ==> settings_in_range(s1)
        }),
{
}

/// Holding both buttons switches the mode exactly once per press: the first
/// tick with both pressed advances the mode, and further ticks while both
/// stay pressed leave it alone.
pub proof fn lemma_mode_switch_once_per_press(bm: ButtonsModel, s: KeyerSettings)
    ensures
        buttons_step(bm, s, true, true).0.both_handled,
        buttons_step(bm, s, true, true).1.mode == (if bm.both_handled { s.mode } else { spec_next_mode(s.mode) }),
        !bm.both_handled ==> ({
            let (bm1, s1) = buttons_step(bm, s, true, true);
            buttons_step(bm1, s1, true, true).1.mode == spec_next_mode(s.mode)
        }),
{
}

/// Pressing one button alone from rest changes the speed by one step at once:
/// down for button A, up for button B, within the speed limits.
pub proof fn lemma_single_press_immediate(bm: ButtonsModel, s: KeyerSettings)
    ensures
        !bm.prev_a ==> buttons_step(bm, s, true, false).1 == speed_down(s),
        !bm.prev_b ==> buttons_step(bm, s, false, true).1 == speed_up(s),
{
}

/// The new key-line level that an engine report causes, if it changes it.
pub open spec fn key_change(prev_key_down: bool, output: Option<KeyerOutput>) -> Option<bool> {
    match key_level(output) {
        Some(k) => if k != prev_key_down { Some(k) } else { None },
        None => None,
    }
}

/// Key-line events are edge-triggered: once a report has changed the key
/// line, the same report again causes no further event.
pub proof fn lemma_key_event_once(prev_key_down: bool, output: Option<KeyerOutput>)
    ensures
        key_change(prev_key_down, output) matches Some(k) ==> key_change(k, output) is None,
{
}


/// A button held alone past the rising tick changes the speed by auto-repeat,
/// button A down and button B up, symmetrically: on a tick where it is still
/// held alone, its time held alone exceeds `BTN_BOTH_WINDOW` and its repeat
/// fires, the speed moves one step (within the limits); on such a tick where
/// the repeat does not fire, the speed is kept. The mode is never touched.
pub proof fn lemma_held_button_repeats(bm: ButtonsModel, s: KeyerSettings)
    ensures
        ({
            let single = sat_inc_u16(bm.single_btn_ms);
            let s_a = buttons_step(bm, s, true, false).1;
            let s_b = buttons_step(bm, s, false, true).1;
            &&& s_a.mode == s.mode && s_b.mode == s.mode
            &&& (bm.prev_a && single > BTN_BOTH_WINDOW && repeat_tick(bm.a_repeat).1) ==>
                s_a.speed_wpm == (if s.speed_wpm > SPEED_MIN { s.speed_wpm - 1 } else { s.speed_wpm as int })
            &&& (bm.prev_b && single > BTN_BOTH_WINDOW && repeat_tick(bm.b_repeat).1) ==>
                s_b.speed_wpm == (if s.speed_wpm < SPEED_MAX { s.speed_wpm + 1 } else { s.speed_wpm as int })
            &&& (bm.prev_a && !(single > BTN_BOTH_WINDOW && repeat_tick(bm.a_repeat).1)) ==> s_a == s
            &&& (bm.prev_b && !(single > BTN_BOTH_WINDOW && repeat_tick(bm.b_repeat).1)) ==> s_b == s
            &&& !bm.prev_a ==> s_a.speed_wpm == (if s.speed_wpm > SPEED_MIN { s.speed_wpm - 1 } else { s.speed_wpm as int })
            &&& !bm.prev_b ==> s_b.speed_wpm == (if s.speed_wpm < SPEED_MAX { s.speed_wpm + 1 } else { s.speed_wpm as int })
        }),
{
}

/// The on/off controllers turn their setting on for any non-zero value and
/// off for zero, and the bounded controllers keep every in-range value and
/// pin out-of-range values to the nearest bound.
pub proof fn lemma_cc_values(c: u8, v: u8)
    ensures
        spec_parse_midi_cc(seq![c, 0xBFu8, CC_KEYS_REVERSED, v]) == Some(ConfigUpdate::KeysReversed(v != 0)),
        spec_parse_midi_cc(seq![c, 0xBFu8, CC_AUTO_SPACING, v]) == Some(ConfigUpdate::AutoSpacing(v != 0)),
        spec_parse_midi_cc(seq![c, 0xBFu8, CC_DYNAMIC_RATIO, v]) == Some(ConfigUpdate::DynamicRatio(v != 0)),
        spec_parse_midi_cc(seq![c, 0xBFu8, CC_HANG_TIME, v]) == Some(ConfigUpdate::HangTime((10 * v) as u32)),
        spec_parse_midi_cc(seq![c, 0xBFu8, CC_SPEED_WPM, v]) matches Some(ConfigUpdate::SpeedWpm(x)) && {
            &&& SPEED_MIN <= x <= SPEED_MAX
            &&& SPEED_MIN <= v <= SPEED_MAX ==> x == v
            &&& v < SPEED_MIN ==> x == SPEED_MIN
            &&& v > SPEED_MAX ==> x == SPEED_MAX
        },
        spec_parse_midi_cc(seq![c, 0xBFu8, CC_WEIGHT, v]) matches Some(ConfigUpdate::Weight(x)) && {
            &&& 25 <= x <= 75
            &&& 25 <= v <= 75 ==> x == v
            &&& v < 25 ==> x == 25
            &&& v > 75 ==> x == 75
        },
        spec_parse_midi_cc(seq![c, 0xBFu8, CC_IAMBIC_B_TIMING, v]) == Some(
            ConfigUpdate::IambicBTiming(if v <= 100 { v } else { 100u8 }),
        ),
        spec_parse_midi_cc(seq![c, 0xBFu8, CC_KEYING_COMP, v]) == Some(
            ConfigUpdate::KeyingComp(if v <= 50 { v } else { 50u8 }),
        ),
        spec_parse_midi_cc(seq![c, 0xBFu8, CC_FARNSWORTH, v]) == Some(
            ConfigUpdate::Farnsworth(if v <= 60 { v } else { 60u8 }),
        ),
        v <= 5 ==> spec_parse_midi_cc(seq![c, 0xBFu8, CC_MODE, v]) is Some,
        v > 5 ==> spec_parse_midi_cc(seq![c, 0xBFu8, CC_MODE, v]) is None,
{
}

/// A received setting sets its field to the value it carries, whatever the
/// field held before, and leaves every other field alone. So applying an
/// update twice is the same as applying it once, and of two updates of the
/// same setting the later one wins.
pub proof fn lemma_apply_sets_field(s: KeyerSettings, u: ConfigUpdate, u2: ConfigUpdate)
    ensures
        ({
            let r = spec_apply_update(s, u);
            match u {
                ConfigUpdate::Mode(v) => r.mode == v && (KeyerSettings { mode: s.mode, ..r }) == s,
                ConfigUpdate::SpeedWpm(v) => r.speed_wpm == v && (KeyerSettings { speed_wpm: s.speed_wpm, ..r }) == s,
                ConfigUpdate::Weight(v) => r.weight == v && (KeyerSettings { weight: s.weight, ..r }) == s,
                ConfigUpdate::KeysReversed(v) => r.keys_reversed == v && (KeyerSettings { keys_reversed: s.keys_reversed, ..r }) == s,
                ConfigUpdate::IambicBTiming(v) => r.iambic_b_timing_percent == v
                    && (KeyerSettings { iambic_b_timing_percent: s.iambic_b_timing_percent, ..r }) == s,
                ConfigUpdate::KeyingComp(v) => r.keying_compensation_ms == v
                    && (KeyerSettings { keying_compensation_ms: s.keying_compensation_ms, ..r }) == s,
                ConfigUpdate::Farnsworth(v) => r.farnsworth_wpm == v && (KeyerSettings { farnsworth_wpm: s.farnsworth_wpm, ..r }) == s,
                ConfigUpdate::HangTime(v) => r.hang_time_ms == v && (KeyerSettings { hang_time_ms: s.hang_time_ms, ..r }) == s,
                ConfigUpdate::AutoSpacing(v) => r.auto_spacing == v && (KeyerSettings { auto_spacing: s.auto_spacing, ..r }) == s,
                ConfigUpdate::DynamicRatio(v) => r.dynamic_ratio == v && (KeyerSettings { dynamic_ratio: s.dynamic_ratio, ..r }) == s,
            }
        }),
        spec_apply_update(spec_apply_update(s, u), u) == spec_apply_update(s, u),
        same_setting(u, u2) ==> spec_apply_update(spec_apply_update(s, u), u2) == spec_apply_update(s, u2),
{
}

/// Whether two updates name the same setting.
pub open spec fn same_setting(u: ConfigUpdate, u2: ConfigUpdate) -> bool {
    match (u, u2) {
        (ConfigUpdate::Mode(_), ConfigUpdate::Mode(_)) => true,
        (ConfigUpdate::SpeedWpm(_), ConfigUpdate::SpeedWpm(_)) => true,
        (ConfigUpdate::Weight(_), ConfigUpdate::Weight(_)) => true,
        (ConfigUpdate::KeysReversed(_), ConfigUpdate::KeysReversed(_)) => true,
        (ConfigUpdate::IambicBTiming(_), ConfigUpdate::IambicBTiming(_)) => true,
        (ConfigUpdate::KeyingComp(_), ConfigUpdate::KeyingComp(_)) => true,
        (ConfigUpdate::Farnsworth(_), ConfigUpdate::Farnsworth(_)) => true,
        (ConfigUpdate::HangTime(_), ConfigUpdate::HangTime(_)) => true,
        (ConfigUpdate::AutoSpacing(_), ConfigUpdate::AutoSpacing(_)) => true,
        (ConfigUpdate::DynamicRatio(_), ConfigUpdate::DynamicRatio(_)) => true,
        _ => false,
    }
}


/// The key-line MIDI packet is a Note On (status 0x90, velocity 127) on C4
/// for key down and a Note Off (status 0x80, velocity 0) on C4 for key up.
pub proof fn lemma_key_note_packet(key_down: bool)
    ensures
        key_note_packet(key_down).len() == 4,
        key_note_packet(key_down)[0] == (if key_down { 0x09u8 } else { 0x08u8 }),
        key_note_packet(key_down)[1] == (if key_down { 0x90u8 } else { 0x80u8 }),
        key_note_packet(key_down)[2] == 60,
        key_note_packet(key_down)[3] == (if key_down { 0x7Fu8 } else { 0x00u8 }),
        key_level(Some(KeyerOutput::KeyDown)) == Some(true),
        key_level(Some(KeyerOutput::KeyUp)) == Some(false),
        key_level(Some(KeyerOutput::PttRequest)) is None,
        key_level(None) is None,
{
}

/// Releasing both buttons re-arms the mode switch: a tick with neither button
/// pressed clears the press latch, so the next tick with both pressed
/// advances the mode again; and a tick with neither pressed changes no setting.
pub proof fn lemma_release_rearms_mode_switch(bm: ButtonsModel, s: KeyerSettings)
    ensures
        ({
            let (bm1, s1) = buttons_step(bm, s, false, false);
            &&& !bm1.both_handled
            &&& s1 == s
            &&& buttons_step(bm1, s1, true, true).1.mode == spec_next_mode(s.mode)
        }),
{
}

/// The `CC_MODE` values 0 to 5 select six different modes, so every mode
/// can be set over MIDI.
pub proof fn lemma_mode_values_distinct(v: u8, w: u8)
    ensures
        v <= 5 && w <= 5 && v != w ==> mode_from_value(v) != mode_from_value(w),
        v <= 5 ==> mode_from_value(v) is Some,
{
}

} // verus!

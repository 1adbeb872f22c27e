//! Sidetone buzzer driven by a PWM slice.
use vstd::prelude::*;

verus! {

/// Sidetone frequency in Hz.
pub const SIDETONE_FREQ: u32 = 600;

/// RP2040 system clock in Hz.
pub const SYS_CLK: u32 = 125_000_000;

/// PWM clock divider (integer part), chosen so that the counter top fits in 16 bits.
pub const PWM_DIV: u32 = 4;

/// The PWM counter top for a tone of `freq` Hz from a `sys_clk` Hz clock
/// divided by `divider`: one period is `top + 1` counts, kept to 16 bits.
pub open spec fn spec_pwm_top(sys_clk: u32, divider: u32, freq: u32) -> int {
    (sys_clk / divider / freq - 1) % 0x1_0000
}

/// The PWM counter top for a tone of `freq` Hz.
pub fn pwm_top(sys_clk: u32, divider: u32, freq: u32) -> (top: u16)
    requires
        divider > 0,
        freq > 0,
        sys_clk / divider / freq >= 1,
    ensures
        top as int == spec_pwm_top(sys_clk, divider, freq),
{
    let counts: u32 = sys_clk / divider / freq - 1;
    assert((counts as u16) as int == counts % 0x1_0000) by (bit_vector);
    #[verifier::truncate]
    let top = counts as u16;
    top
}

/// The channel compare level for the buzzer: a square wave (50% duty) while
/// sounding, zero (silent) otherwise.
pub fn buzzer_compare(top: u16, on: bool) -> (level: u16)
    ensures
        level == (if on { top / 2 } else { 0 }),
{
    if on {
        top / 2
    } else {
        0
    }
}

} // verus!

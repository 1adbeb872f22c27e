use cw_adapter::sidetone::{buzzer_compare, pwm_top, PWM_DIV, SIDETONE_FREQ, SYS_CLK};

#[test]
fn sidetone_pwm_top_for_600_hz() {
    let top = pwm_top(SYS_CLK, PWM_DIV, SIDETONE_FREQ);
    assert_eq!(top, 52082);
    assert_eq!(pwm_top(1000, 1, 1), 999);
    assert_eq!(pwm_top(0x20000, 1, 1), 0xFFFF);
}

#[test]
fn sidetone_square_wave_or_silent() {
    assert_eq!(buzzer_compare(52082, true), 26041);
    assert_eq!(buzzer_compare(52082, false), 0);
}

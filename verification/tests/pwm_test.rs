use esp_fan::pwm::{Level, PulseCode, PwmConfig, PwmConfigError, PULSE_MAX_LEN, PWM_BUFFER};

#[test]
fn pwm_config_success() {
    let _config = PwmConfig::new(80, 25, (0, 1)).unwrap();
}

#[test]
fn pwm_config_invalid() {
    assert_eq!(
        PwmConfig::new(80, 25, (1, 0)).unwrap_err(),
        PwmConfigError::InvalidRange
    );
    assert_eq!(
        PwmConfig::new(0, 25, (0, 1)).unwrap_err(),
        PwmConfigError::RequiresNonZeroCarrier
    );
    assert_eq!(
        PwmConfig::new(80, 0, (0, 1)).unwrap_err(),
        PwmConfigError::RequiresNonZeroPWM
    );
}

#[test]
fn to_pulse_code() {
    let config = PwmConfig::new(80, 25, (0, 15)).unwrap();

    let step = 3200 / 15;

    //lowest - should be the lowest clamped for PWM
    assert_eq!(
        config.to_pulse_code(&0)[0],
        PulseCode::new(Level::High, 5, Level::Low, 3195)
    );
    // first in range
    assert_eq!(
        config.to_pulse_code(&1)[0],
        PulseCode::new(Level::High, step, Level::Low, 3200 - step)
    );
    // second highest
    assert_eq!(
        config.to_pulse_code(&14)[0],
        PulseCode::new(Level::High, 3200 - step - 1, Level::Low, step + 1)
    );
    //max
    assert_eq!(
        config.to_pulse_code(&15)[0],
        PulseCode::new(Level::High, 3195, Level::Low, 5)
    );
    //clamped max
    assert_eq!(
        config.to_pulse_code(&999)[0],
        PulseCode::new(Level::High, 3195, Level::Low, 5)
    );
}

#[test]
fn pwm_config_error_order() {
    // The range is checked first, then the carrier, then the PWM frequency.
    assert_eq!(
        PwmConfig::new(0, 0, (2, 1)).unwrap_err(),
        PwmConfigError::InvalidRange
    );
    assert_eq!(
        PwmConfig::new(0, 0, (1, 1)).unwrap_err(),
        PwmConfigError::RequiresNonZeroCarrier
    );
}

#[test]
fn pwm_config_fields() {
    let config = PwmConfig::new(80, 25, (0, 15)).unwrap();
    assert_eq!(config.carrier_rate_hz(), 80_000_000);
    assert_eq!(config.ticks_per_pwm(), 3200);
    // 1 MHz carrier at 1 kHz PWM: 1000 ticks per period.
    let slow = PwmConfig::new(1, 1, (0, 15)).unwrap();
    assert_eq!(slow.ticks_per_pwm(), 1000);
    // 80 MHz carrier at 1 kHz: 80000 ticks, truncated to 16 bits.
    let wide = PwmConfig::new(80, 1, (0, 15)).unwrap();
    assert_eq!(wide.ticks_per_pwm(), (80_000u32 % 65_536) as u16);
}

#[test]
fn pulse_code_end_marker() {
    let config = PwmConfig::new(80, 25, (0, 15)).unwrap();
    let codes = config.to_pulse_code(&7);
    assert_eq!(codes[1], PulseCode::end_marker());
    assert_eq!(
        PulseCode::end_marker(),
        PulseCode::new(Level::Low, 0, Level::Low, 0)
    );
    // 7 * 3200 / 15 = 1493
    assert_eq!(codes[0], PulseCode::new(Level::High, 1493, Level::Low, 1707));
}

#[test]
fn pulse_code_period_is_kept() {
    let config = PwmConfig::new(80, 25, (0, 15)).unwrap();
    let mut last = 0u16;
    for s in 0u16..=20 {
        let code = config.to_pulse_code(&s)[0];
        assert_eq!(code.level1, Level::High);
        assert_eq!(code.level2, Level::Low);
        assert_eq!(code.length1 + code.length2, 3200);
        assert!(code.length1 >= PWM_BUFFER && code.length2 >= PWM_BUFFER);
        assert!(code.length1 >= last);
        assert!(code.length1 <= PULSE_MAX_LEN);
        last = code.length1;
    }
}

#[test]
fn pulse_code_offset_range() {
    // Switch range 5..=10 onto 1000 ticks: below 5 is the buffer, 10 and above the top.
    let config = PwmConfig::new(1, 1, (5, 10)).unwrap();
    assert_eq!(config.to_pulse_code(&0)[0].length1, 5);
    assert_eq!(config.to_pulse_code(&5)[0].length1, 5);
    assert_eq!(config.to_pulse_code(&6)[0].length1, 200);
    assert_eq!(config.to_pulse_code(&10)[0].length1, 995);
    assert_eq!(config.to_pulse_code(&11)[0].length1, 995);
}

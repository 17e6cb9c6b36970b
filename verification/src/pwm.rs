//! PWM configuration: the carrier and PWM frequencies decide how many carrier
//! ticks make up one PWM period, and a switch value decides how many of those
//! ticks the output stays high.

use vstd::prelude::*;
use crate::maths::{map_value, map_defined, lemma_map_within_domain, lemma_map_monotonic, RangeDomainMapper};
use crate::SwitchValue;

verus! {

/// Margin of ticks kept at both ends of a PWM period: an inflection at (or next
/// to) either end makes the hardware emit the inverted pulse.
pub const PWM_BUFFER: u16 = 5;

/// Largest length that one half of a pulse code can hold (15 bits).
pub const PULSE_MAX_LEN: u16 = 0x7FFF;

/// Why a `PwmConfig` could not be built.
#[derive(Debug, Clone, Copy, PartialEq, Eq, Structural)]
pub enum PwmConfigError {
    /// The switch range goes from high to low.
    InvalidRange,
    /// The carrier rate is zero.
    RequiresNonZeroCarrier,
    /// The PWM frequency is zero.
    RequiresNonZeroPWM,
}

/// Logic level of an output.
#[derive(Debug, Clone, Copy, PartialEq, Eq, Structural)]
pub enum Level {
    Low,
    High,
}

/// One RMT pulse code: `level1` for `length1` ticks, then `level2` for `length2`
/// ticks. A zero length marks the end of a transmission.
#[derive(Debug, Clone, Copy, PartialEq, Eq, Structural)]
pub struct PulseCode {
    pub level1: Level,
    pub length1: u16,
    pub level2: Level,
    pub length2: u16,
}

impl PulseCode {
    /// A pulse code with the given levels and lengths; each length must fit in 15 bits.
    pub fn new(level1: Level, length1: u16, level2: Level, length2: u16) -> (c: Self)
        requires
            length1 <= PULSE_MAX_LEN,
            length2 <= PULSE_MAX_LEN,
        ensures
            c == (PulseCode { level1, length1, level2, length2 }),
    {
        PulseCode { level1, length1, level2, length2 }
    }

    /// The end marker: both levels low, both lengths zero.
    pub fn end_marker() -> (c: Self)
        ensures
            c == end_marker_spec(),
    {
        PulseCode { level1: Level::Low, length1: 0, level2: Level::Low, length2: 0 }
    }
}

/// The end-of-transmission pulse code.
pub open spec fn end_marker_spec() -> PulseCode {
    PulseCode { level1: Level::Low, length1: 0, level2: Level::Low, length2: 0 }
}

/// The error `PwmConfig::new` reports for these arguments, checked in this order:
/// range, carrier, PWM frequency; `None` when the configuration is accepted.
pub open spec fn pwm_config_error(
    carrier_rate_mhz: u32,
    pwm_freq_khz: u32,
    range: (u16, u16),
) -> Option<PwmConfigError> {
    if range.0 > range.1 {
        Some(PwmConfigError::InvalidRange)
    } else if carrier_rate_mhz == 0 {
        Some(PwmConfigError::RequiresNonZeroCarrier)
    } else if pwm_freq_khz == 0 {
        Some(PwmConfigError::RequiresNonZeroPWM)
    } else {
        None
    }
}

/// Carrier ticks per PWM period: the carrier rate in Hz divided by the PWM
/// frequency in Hz, truncated to 16 bits.
pub open spec fn ticks_per_pwm_spec(carrier_rate_mhz: u32, pwm_freq_khz: u32) -> u16 {
    ((carrier_rate_mhz * 1_000_000) / (pwm_freq_khz * 1_000)) as u16
}

/// `v` limited to `[lo, hi]`.
pub open spec fn clamp_u16(v: u16, lo: u16, hi: u16) -> u16 {
    if v < lo {
        lo
    } else if v > hi {
        hi
    } else {
        v
    }
}

/// Carrier configuration and the mapping from switch values to high ticks.
#[derive(Debug)]
pub struct PwmConfig {
    carrier_rate_hz: u32,
    mapper: RangeDomainMapper,
    ticks_per_pwm: u16,
}

impl PwmConfig {
    /// The mapper maps the switch range, which comes from `u16` bounds, onto
    /// `[0, ticks_per_pwm]`.
    #[verifier::type_invariant]
    spec fn inv(self) -> bool {
        &&& self.mapper@.0.0 <= self.mapper@.0.1 <= u16::MAX
        &&& self.mapper@.1 == (0u32, self.ticks_per_pwm as u32)
    }

    /// Carrier rate in Hz.
    pub closed spec fn spec_carrier_rate_hz(&self) -> u32 {
        self.carrier_rate_hz
    }

    /// Carrier ticks per PWM period.
    pub closed spec fn spec_ticks_per_pwm(&self) -> u16 {
        self.ticks_per_pwm
    }

    /// The switch range, as given to `new`.
    pub closed spec fn spec_range(&self) -> (u32, u32) {
        self.mapper@.0
    }

    /// The number of high ticks for `switches`, before clamping: the switch value
    /// mapped linearly from the switch range onto `[0, ticks_per_pwm]`, truncated
    /// to 16 bits.
    pub open spec fn spec_mapped_ticks(&self, switches: SwitchValue) -> u16 {
        map_value(self.spec_range(), (0u32, self.spec_ticks_per_pwm() as u32), switches as u32) as u16
    }

    /// Where the output switches from high to low: the mapped ticks, kept
    /// `PWM_BUFFER` ticks away from both ends of the period.
    pub open spec fn spec_inflection(&self, switches: SwitchValue) -> u16 {
        clamp_u16(
            self.spec_mapped_ticks(switches),
            PWM_BUFFER,
            (self.spec_ticks_per_pwm() - PWM_BUFFER) as u16,
        )
    }

    /// The inflection keeps `PWM_BUFFER` ticks away from both ends of the period,
    /// so the high and the low part of every pulse are at least that long.
    pub proof fn lemma_inflection_in_period(&self, switches: SwitchValue)
        requires
            self.spec_ticks_per_pwm() >= 2 * PWM_BUFFER,
        ensures
            PWM_BUFFER <= self.spec_inflection(switches) <= self.spec_ticks_per_pwm() - PWM_BUFFER,
    {
    }

    /// A higher switch value never gives fewer high ticks.
    pub proof fn lemma_inflection_monotonic(&self, s1: SwitchValue, s2: SwitchValue)
        requires
            self.spec_range().0 < self.spec_range().1,
            self.spec_ticks_per_pwm() >= 2 * PWM_BUFFER,
            s1 <= s2,
        ensures
            self.spec_inflection(s1) <= self.spec_inflection(s2),
    {
        let range = self.spec_range();
        let domain = (0u32, self.spec_ticks_per_pwm() as u32);
        lemma_map_within_domain(range, domain, s1 as u32);
        lemma_map_within_domain(range, domain, s2 as u32);
        lemma_map_monotonic(range, domain, s1 as u32, s2 as u32);
    }

    /// Builds a configuration from the carrier rate (MHz), the PWM frequency (kHz)
    /// and the range of switch values.
    ///
    /// # Errors
    ///
    /// `InvalidRange` when the range goes from high to low, `RequiresNonZeroCarrier`
    /// for a zero carrier rate, `RequiresNonZeroPWM` for a zero PWM frequency.
    pub fn new(carrier_rate_mhz: u32, pwm_freq_khz: u32, range: (u16, u16)) -> (r: Result<
        Self,
        PwmConfigError,
    >)
        requires
            pwm_config_error(carrier_rate_mhz, pwm_freq_khz, range) is None ==> {
                &&& carrier_rate_mhz * 1_000_000 <= u32::MAX
                &&& pwm_freq_khz * 1_000 <= u32::MAX
            },
        ensures
            r is Err <==> pwm_config_error(carrier_rate_mhz, pwm_freq_khz, range) is Some,
            r matches Err(e) ==> pwm_config_error(carrier_rate_mhz, pwm_freq_khz, range) == Some(e),
            r matches Ok(c) ==> {
                &&& c.spec_carrier_rate_hz() == carrier_rate_mhz * 1_000_000
                &&& c.spec_ticks_per_pwm() == ticks_per_pwm_spec(carrier_rate_mhz, pwm_freq_khz)
                &&& c.spec_range() == (range.0 as u32, range.1 as u32)
            },
    {
        if range.0 > range.1 {
            return Err(PwmConfigError::InvalidRange);
        }
        if carrier_rate_mhz == 0 {
            return Err(PwmConfigError::RequiresNonZeroCarrier);
        }
        if pwm_freq_khz == 0 {
            return Err(PwmConfigError::RequiresNonZeroPWM);
        }

        let carrier_rate_hz = carrier_rate_mhz * 1_000_000;
        let pwm_freq_hz = pwm_freq_khz * 1_000;

        let ticks_per_pwm = (carrier_rate_hz / pwm_freq_hz) as u16;

        let mapper = RangeDomainMapper::new(
            (range.0 as u32, range.1 as u32),
            (0, ticks_per_pwm as u32),
        );

        Ok(Self { carrier_rate_hz, mapper, ticks_per_pwm })
    }

    /// Carrier rate in Hz.
    pub fn carrier_rate_hz(&self) -> (r: u32)
        ensures
            r == self.spec_carrier_rate_hz(),
    {
        self.carrier_rate_hz
    }

    /// Carrier ticks per PWM period.
    pub fn ticks_per_pwm(&self) -> (r: u16)
        ensures
            r == self.spec_ticks_per_pwm(),
    {
        self.ticks_per_pwm
    }

    /// The switch range, as given to `new`.
    pub fn range(&self) -> (r: (u32, u32))
        ensures
            r == self.spec_range(),
    {
        self.mapper.range()
    }

    /// Where the output switches from high to low for `switches`.
    fn inflection(&self, switches: &SwitchValue) -> (r: u16)
        requires
            self.spec_range().0 < self.spec_range().1,
            self.spec_ticks_per_pwm() >= 2 * PWM_BUFFER,
        ensures
            r == self.spec_inflection(*switches),
    {
        proof {
            use_type_invariant(self);
        }
        let input = *switches as u32;
        proof {
            let range = self.mapper@.0;
            let off = crate::maths::range_offset(range, input);
            assert(0 <= off <= u16::MAX);
            assert(off * (self.ticks_per_pwm as int) <= u16::MAX * u16::MAX) by (nonlinear_arith)
                requires
                    0 <= off <= u16::MAX,
                    0 <= self.ticks_per_pwm <= u16::MAX,
            ;
            assert(map_defined(self.mapper@.0, self.mapper@.1, input));
        }
        let mapped = self.mapper.value(&input) as u16;
        let upper = self.ticks_per_pwm - PWM_BUFFER;
        if mapped < PWM_BUFFER {
            PWM_BUFFER
        } else if mapped > upper {
            upper
        } else {
            mapped
        }
    }

    /// Whether `to_pulse_code` can build the pulse codes for `switches`: the switch
    /// range is not empty, the period leaves room for the buffer at both ends, and
    /// both halves fit in a pulse code.
    pub open spec fn spec_pulse_code_defined(&self, switches: SwitchValue) -> bool {
        &&& self.spec_range().0 < self.spec_range().1
        &&& self.spec_ticks_per_pwm() >= 2 * PWM_BUFFER
        &&& self.spec_inflection(switches) <= PULSE_MAX_LEN
        &&& self.spec_ticks_per_pwm() - self.spec_inflection(switches) <= PULSE_MAX_LEN
    }

    /// Tells whether `to_pulse_code` can build the pulse codes for `switches`.
    pub fn pulse_code_defined(&self, switches: &SwitchValue) -> (r: bool)
        ensures
            r == self.spec_pulse_code_defined(*switches),
    {
        let range = self.range();
        if range.0 >= range.1 || self.ticks_per_pwm < 2 * PWM_BUFFER {
            return false;
        }
        let high = self.inflection(switches);
        high <= PULSE_MAX_LEN && self.ticks_per_pwm - high <= PULSE_MAX_LEN
    }

    /// The pulse codes for one PWM period at `switches`: high for the inflection,
    /// low for the rest of the period, then the end marker.
    pub fn to_pulse_code(&self, switches: &SwitchValue) -> (r: [PulseCode; 2])
        requires
            self.spec_pulse_code_defined(*switches),
        ensures
            r@[0] == (PulseCode {
                level1: Level::High,
                length1: self.spec_inflection(*switches),
                level2: Level::Low,
                length2: (self.spec_ticks_per_pwm() - self.spec_inflection(*switches)) as u16,
            }),
            r@[1] == end_marker_spec(),
    {
        let inflection = self.inflection(switches);

        let high_ticks: u16 = inflection;
        let low_ticks = self.ticks_per_pwm - high_ticks;
        [
            PulseCode::new(Level::High, high_ticks, Level::Low, low_ticks),
            PulseCode::end_marker(),
        ]
    }
}

} // verus!

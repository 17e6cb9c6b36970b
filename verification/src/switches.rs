//! Decoding the analog reading of the switch ladder into a switch value, and the
//! decisions of the listener loop that turn readings into change events.

use vstd::prelude::*;
use core::marker::PhantomData;
use crate::SwitchValue;

verus! {

/// Number of readings kept for smoothing.
pub const SAMPLES: usize = 8;

/// Lowest ADC reading of each switch value from 1 to 15, ascending; readings
/// below the first threshold decode to 0.
pub const ADC_THRESHOLDS: [u16; 15] = [
    160, 454, 699, 957, 1180, 1322, 1445, 1580, 1705, 1784, 1849, 1930, 2005, 2057, 2107,
];

/// The thresholds as a sequence.
pub open spec fn thresholds() -> Seq<u16> {
    seq![160u16, 454, 699, 957, 1180, 1322, 1445, 1580, 1705, 1784, 1849, 1930, 2005, 2057, 2107]
}

/// `v` is the switch value whose band of readings holds `adc_value`.
pub open spec fn in_band(adc_value: u16, v: SwitchValue) -> bool {
    &&& v <= 15
    &&& v > 0 ==> thresholds()[v - 1] <= adc_value
    &&& v < 15 ==> adc_value < thresholds()[v as int]
}

/// The thresholds strictly increase.
pub proof fn lemma_thresholds_ascending()
    ensures
        forall|i: int, j: int| 0 <= i < j < 15 ==> thresholds()[i] < thresholds()[j],
{
    let t = thresholds();
    assert(t[0] == 160 && t[1] == 454 && t[2] == 699 && t[3] == 957 && t[4] == 1180);
    assert(t[5] == 1322 && t[6] == 1445 && t[7] == 1580 && t[8] == 1705 && t[9] == 1784);
    assert(t[10] == 1849 && t[11] == 1930 && t[12] == 2005 && t[13] == 2057 && t[14] == 2107);
}

/// Each reading lies in exactly one band, so the decoded switch value is unique.
pub proof fn lemma_band_unique(adc_value: u16, v1: SwitchValue, v2: SwitchValue)
    requires
        in_band(adc_value, v1),
        in_band(adc_value, v2),
    ensures
        v1 == v2,
{
    lemma_thresholds_ascending();
    if v1 < v2 {
        assert(thresholds()[v1 as int] <= thresholds()[v2 - 1]);
    } else if v2 < v1 {
        assert(thresholds()[v2 as int] <= thresholds()[v1 - 1]);
    }
}

/// A higher reading never decodes to a lower switch value.
pub proof fn lemma_band_monotonic(a1: u16, v1: SwitchValue, a2: u16, v2: SwitchValue)
    requires
        in_band(a1, v1),
        in_band(a2, v2),
        a1 <= a2,
    ensures
        v1 <= v2,
{
    lemma_thresholds_ascending();
    if v2 < v1 {
        assert(thresholds()[v2 as int] <= thresholds()[v1 - 1]);
    }
}

/// Decodes an ADC reading of the switch ladder into a switch value in `0..=15`:
/// the value `v` whose band `[thresholds[v - 1], thresholds[v])` holds the reading.
#[must_use]
pub fn adc_to_u8(adc_value: u16) -> (v: SwitchValue)
    ensures
        in_band(adc_value, v),
{
    let mut v: usize = 0;
    while v < 15
        invariant
            v <= 15,
            ADC_THRESHOLDS@ == thresholds(),
            forall|i: int| 0 <= i < v ==> thresholds()[i] <= adc_value,
        ensures
            v <= 15,
            forall|i: int| 0 <= i < v ==> thresholds()[i] <= adc_value,
            v < 15 ==> adc_value < thresholds()[v as int],
        decreases 15 - v,
    {
        if adc_value < ADC_THRESHOLDS[v] {
            break;
        }
        v = v + 1;
    }
    v as SwitchValue
}

/// The last `SAMPLES` readings of the switch ladder, newest first. A new
/// window holds zeros.
#[derive(Debug, Clone, Copy)]
pub struct SampleWindow {
    samples: [u16; SAMPLES],
}

impl View for SampleWindow {
    type V = Seq<u16>;

    closed spec fn view(&self) -> Seq<u16> {
        self.samples@
    }
}

impl SampleWindow {
    /// A window of zero readings.
    pub fn new() -> (w: Self)
        ensures
            w@ == Seq::new(SAMPLES as nat, |i: int| 0u16),
    {
        let w = SampleWindow { samples: [0u16; 8] };
        assert(w@ =~= Seq::new(SAMPLES as nat, |i: int| 0u16));
        w
    }

    /// Shifts every reading one place towards the end, dropping the oldest, and
    /// puts `reading` first.
    pub fn push(&mut self, reading: u16)
        ensures
            final(self)@ == seq![reading] + old(self)@.take(SAMPLES - 1),
    {
        let ghost before = self.samples@;
        let mut i: usize = SAMPLES - 1;
        while i > 0
            invariant
                0 <= i < SAMPLES,
                self.samples@.len() == SAMPLES,
                forall|k: int| 0 <= k <= i ==> self.samples@[k] == before[k],
                forall|k: int| i < k < SAMPLES ==> self.samples@[k] == before[k - 1],
            decreases i,
        {
            let prev = self.samples[i - 1];
            self.samples[i] = prev;
            i = i - 1;
        }
        self.samples[0] = reading;
        assert(self.samples@ =~= seq![reading] + before.take(SAMPLES - 1));
    }

    /// The readings, newest first.
    pub fn samples(&self) -> (s: [u16; SAMPLES])
        ensures
            s@ == self@,
    {
        self.samples
    }
}

/// What `switch_change` returns: a value to send exactly when the window is steady
/// and the mean reading decodes to a value other than `last`, and then that value.
pub open spec fn switch_change_result(last: SwitchValue, stable: bool, mean_reading: u16, r: Option<SwitchValue>) -> bool {
    &&& r matches Some(v) ==> stable && in_band(mean_reading, v) && v != last
    &&& r is None ==> !stable || in_band(mean_reading, last)
}

/// Once a value has been sent for a steady reading, the same steady reading sends
/// nothing more.
pub proof fn lemma_change_sent_once(
    last: SwitchValue,
    mean_reading: u16,
    sent: SwitchValue,
    next: Option<SwitchValue>,
)
    requires
        switch_change_result(last, true, mean_reading, Some(sent)),
        switch_change_result(sent, true, mean_reading, next),
    ensures
        next is None,
{
    if let Some(v) = next {
        lemma_band_unique(mean_reading, v, sent);
    }
}

/// The decision of the listener loop after a reading. When the window is steady
/// (`stable`), the mean reading is decoded; a value that differs from the `last`
/// one sent is returned, to be sent and remembered. Otherwise nothing is sent.
pub fn switch_change(last: SwitchValue, stable: bool, mean_reading: u16) -> (r: Option<SwitchValue>)
    ensures
        switch_change_result(last, stable, mean_reading, r),
{
    if stable {
        let switches_value = adc_to_u8(mean_reading);
        if last != switches_value {
            return Some(switches_value);
        }
    }
    None
}

/// The pin and ADC unit that sample the switch ladder, and the calibration
/// scheme `CS` to read them with.
#[derive(Debug)]
pub struct SwitchesConfig<PIN, ADCX, CS> {
    pin: PIN,
    adc: ADCX,
    _phantom: PhantomData<CS>,
}

impl<PIN, ADCX, CS> SwitchesConfig<PIN, ADCX, CS> {
    /// The pin given to `new`.
    pub closed spec fn spec_pin(&self) -> PIN {
        self.pin
    }

    /// The ADC unit given to `new`.
    pub closed spec fn spec_adc(&self) -> ADCX {
        self.adc
    }

    /// Pairs `pin` with the ADC unit `adc` that reads it.
    pub fn new(pin: PIN, adc: ADCX) -> (c: Self)
        ensures
            c.spec_pin() == pin,
            c.spec_adc() == adc,
    {
        Self { pin, adc, _phantom: PhantomData }
    }

    /// Gives back the pin and the ADC unit, to be configured together.
    pub fn into_parts(self) -> (r: (PIN, ADCX))
        ensures
            r == (self.spec_pin(), self.spec_adc()),
    {
        (self.pin, self.adc)
    }
}

} // verus!

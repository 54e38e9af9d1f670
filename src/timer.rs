use vstd::prelude::*;

verus! {

/// System clock of the board, in kHz (16 MHz).
pub const CLOCK_KHZ: u32 = 16_000;

/// A clock divider that the timer hardware provides.
#[derive(Clone, Copy, Debug, PartialEq, Eq, Structural)]
pub enum Prescaler {
    Div8,
    Div64,
    Div256,
    Div1024,
}

/// Why a timer configuration was refused.
#[derive(Clone, Copy, Debug, PartialEq, Eq, Structural)]
pub enum ConfigError {
    /// The requested divider has no hardware counterpart.
    UnsupportedPrescaler,
    /// The compare count does not fit the 8-bit compare register, or is zero.
    CompareOutOfRange,
    /// The sample period is shorter than one interrupt period, or the
    /// interrupt period rounds to zero milliseconds.
    SamplePeriodTooShort,
}

/// The divider value a prescaler stands for.
pub open spec fn divider_of(p: Prescaler) -> nat {
    match p {
        Prescaler::Div8 => 8,
        Prescaler::Div64 => 64,
        Prescaler::Div256 => 256,
        Prescaler::Div1024 => 1024,
    }
}

/// The divider values the hardware supports.
pub open spec fn is_supported_divider(d: nat) -> bool {
    d == 8 || d == 64 || d == 256 || d == 1024
}

impl Prescaler {
    /// The hardware divider for a requested divider value, if there is one.
    pub fn from_divider(d: u32) -> (r: Option<Prescaler>)
        ensures
            r.is_some() <==> is_supported_divider(d as nat),
            r.is_some() ==> divider_of(r.unwrap()) == d,
    {
        match d {
            8 => Some(Prescaler::Div8),
            64 => Some(Prescaler::Div64),
            256 => Some(Prescaler::Div256),
            1024 => Some(Prescaler::Div1024),
            _ => None,
        }
    }

    /// The divider value of this prescaler.
    pub fn divider(&self) -> (r: u32)
        ensures
            r == divider_of(*self),
    {
        match self {
            Prescaler::Div8 => 8,
            Prescaler::Div64 => 64,
            Prescaler::Div256 => 256,
            Prescaler::Div1024 => 1024,
        }
    }
}

/// A repeating compare-match configuration of the timer: clear the count on
/// match with `compare`, raise the compare interrupt, clock through `prescaler`.
#[derive(Clone, Copy, Debug, PartialEq, Eq, Structural)]
pub struct TimerConfig {
    pub prescaler: Prescaler,
    pub compare: u8,
}

/// Interrupt period in whole milliseconds for a divider and a compare count.
pub open spec fn period_millis_of(divider: nat, counts: nat) -> nat {
    (divider * counts) / (CLOCK_KHZ as nat)
}

impl TimerConfig {
    /// Selects the hardware divider for `prescaler` and the compare count
    /// `interval_counts`; refuses a divider the hardware lacks, and a count
    /// outside 1..=255.
    pub fn configure(prescaler: u32, interval_counts: u32) -> (r: Result<TimerConfig, ConfigError>)
        ensures
            !is_supported_divider(prescaler as nat) ==> r == Err::<TimerConfig, ConfigError>(
                ConfigError::UnsupportedPrescaler,
            ),
            is_supported_divider(prescaler as nat) && !(1 <= interval_counts <= 255) ==> r == Err::<
                TimerConfig,
                ConfigError,
            >(ConfigError::CompareOutOfRange),
            is_supported_divider(prescaler as nat) && 1 <= interval_counts <= 255 ==> r.is_ok()
                && divider_of(r.unwrap().prescaler) == prescaler && r.unwrap().compare
                == interval_counts,
    {
        let p = match Prescaler::from_divider(prescaler) {
            Some(p) => p,
            None => return Err(ConfigError::UnsupportedPrescaler),
        };
        if interval_counts == 0 || interval_counts > 255 {
            return Err(ConfigError::CompareOutOfRange);
        }
        Ok(TimerConfig { prescaler: p, compare: interval_counts as u8 })
    }

    /// The interrupt period in whole milliseconds on the 16 MHz clock.
    pub fn period_millis(&self) -> (r: u32)
        ensures
            r == period_millis_of(divider_of(self.prescaler), self.compare as nat),
    {
        let d = self.prescaler.divider();
        let c = self.compare as u32;
        assert(d * c <= 1024 * 255) by (nonlinear_arith)
            requires
                d <= 1024,
                c <= 255,
        ;
        d * c / CLOCK_KHZ
    }
}

/// Interrupts that make up one sample period, when the interrupt period is not zero.
pub open spec fn ticks_per_sample_of(sample_millis: nat, period_millis: nat) -> nat {
    sample_millis / period_millis
}

/// How many interrupts of `period_millis` make up a sample period of
/// `sample_millis`; `None` when the period is zero or shorter than one
/// interrupt period.
pub fn ticks_per_sample(sample_millis: u32, period_millis: u32) -> (r: Option<u32>)
    ensures
        r.is_some() <==> period_millis > 0 && sample_millis >= period_millis,
        r.is_some() ==> r.unwrap() == ticks_per_sample_of(sample_millis as nat, period_millis as nat)
            && r.unwrap() >= 1,
{
    if period_millis == 0 || sample_millis < period_millis {
        None
    } else {
        assert(sample_millis / period_millis >= 1) by (nonlinear_arith)
            requires
                period_millis > 0,
                sample_millis >= period_millis,
        ;
        Some(sample_millis / period_millis)
    }
}

} // verus!

use vstd::prelude::*;
use crate::critical::Shared;
use crate::report::{ReadError, SensorReading, SAMPLE_SECONDS, reading_line, error_line, report_line};
use crate::ticks::{TickState, wrap_add};
use crate::timer::{
    ConfigError, TimerConfig, divider_of, is_supported_divider, period_millis_of,
    ticks_per_sample_of,
};

verus! {

/// What the polling loop does after probing the sample flag.
#[derive(Clone, Copy, Debug, PartialEq, Eq, Structural)]
pub enum Action {
    /// No sample is due: wait for the next probe.
    Idle,
    /// A sample is due: toggle the indicator, read the sensor, report.
    ReadSensor,
}

/// The polling loop's own state: the time column of the report.
#[derive(Clone, Copy, Debug, PartialEq, Eq, Structural)]
pub struct Logger {
    pub seconds: u32,
}

/// The timer set-up and the initial shared cells of a sampler.
pub struct Setup {
    pub timer: TimerConfig,
    pub cells: TickState,
}

/// Configures the timer for `prescaler` and `interval_counts`, and the
/// shared cells so that a sample becomes due every `sample_millis`: the
/// threshold is the number of whole interrupt periods in the sample period,
/// and the millisecond counter advances by one interrupt period per interrupt.
pub fn setup(prescaler: u32, interval_counts: u32, sample_millis: u32) -> (r: Result<Setup, ConfigError>)
    ensures
        !is_supported_divider(prescaler as nat) ==> r is Err && r->Err_0
            == ConfigError::UnsupportedPrescaler,
        is_supported_divider(prescaler as nat) && !(1 <= interval_counts <= 255) ==> r is Err
            && r->Err_0 == ConfigError::CompareOutOfRange,
        is_supported_divider(prescaler as nat) && 1 <= interval_counts <= 255 ==> {
            let period = period_millis_of(prescaler as nat, interval_counts as nat);
            &&& (period == 0 || sample_millis < period) ==> r is Err && r->Err_0
                == ConfigError::SamplePeriodTooShort
            &&& (period > 0 && sample_millis >= period) ==> r is Ok
                && divider_of(r->Ok_0.timer.prescaler) == prescaler
                && r->Ok_0.timer.compare == interval_counts
                && r->Ok_0.cells.wf()
                && r->Ok_0.cells.ticks == 0
                && r->Ok_0.cells.millis == 0
                && !r->Ok_0.cells.sample_due
                && r->Ok_0.cells.threshold == ticks_per_sample_of(sample_millis as nat, period)
                && r->Ok_0.cells.millis_per_tick == period
        },
{
    let timer = match TimerConfig::configure(prescaler, interval_counts) {
        Ok(t) => t,
        Err(e) => return Err(e),
    };
    let period = timer.period_millis();
    let threshold = match crate::timer::ticks_per_sample(sample_millis, period) {
        Some(t) => t,
        None => return Err(ConfigError::SamplePeriodTooShort),
    };
    Ok(Setup { timer, cells: TickState::new(threshold, period) })
}

impl Logger {
    /// The loop's state before the first sample: time zero.
    pub fn new() -> (r: Logger)
        ensures
            r.seconds == 0,
    {
        Logger { seconds: 0 }
    }

    /// Decides on the outcome of a probe of the sample flag. A due sample
    /// advances the time column by one sample period (wrapping at the integer
    /// width) and asks for a sensor read; otherwise nothing changes.
    pub fn on_probe(&mut self, sample_due: bool) -> (r: Action)
        ensures
            sample_due ==> r == Action::ReadSensor && final(self).seconds == wrap_add(
                old(self).seconds as nat,
                SAMPLE_SECONDS as nat,
            ),
            !sample_due ==> r == Action::Idle && final(self).seconds == old(self).seconds,
    {
        if sample_due {
            if self.seconds > u32::MAX - SAMPLE_SECONDS {
                self.seconds = SAMPLE_SECONDS - (u32::MAX - self.seconds) - 1;
            } else {
                self.seconds = self.seconds + SAMPLE_SECONDS;
            }
            Action::ReadSensor
        } else {
            Action::Idle
        }
    }

    /// Probes and clears the sample flag in one critical section, then decides
    /// as `on_probe` does.
    pub fn poll(&mut self, shared: &mut Shared) -> (r: Action)
        requires
            old(shared).wf(),
        ensures
            final(shared).wf(),
            final(shared).enabled() == old(shared).enabled(),
            !final(shared).cells().sample_due,
            final(shared).cells().ticks == old(shared).cells().ticks,
            final(shared).cells().millis == old(shared).cells().millis,
            final(shared).cells().threshold == old(shared).cells().threshold,
            final(shared).cells().millis_per_tick == old(shared).cells().millis_per_tick,
            (r == Action::ReadSensor) == old(shared).cells().sample_due,
            old(shared).cells().sample_due ==> final(self).seconds == wrap_add(
                old(self).seconds as nat,
                SAMPLE_SECONDS as nat,
            ),
            !old(shared).cells().sample_due ==> final(self).seconds == old(self).seconds,
    {
        let due = shared.take_sample();
        self.on_probe(due)
    }

    /// The report line for a sensor outcome at the current time: the reading
    /// on success, exactly one diagnostic line on a read error.
    pub fn report(&self, outcome: Result<SensorReading, ReadError>) -> (r: Vec<u8>)
        ensures
            outcome is Ok ==> r@ == reading_line(self.seconds as nat, outcome->Ok_0),
            outcome is Err ==> r@ == error_line(),
    {
        report_line(self.seconds, outcome)
    }
}

} // verus!

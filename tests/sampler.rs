use uno_sampler::critical::Shared;
use uno_sampler::poll::{setup, Action, Logger};
use uno_sampler::report::{header, report_line, ReadError, SensorReading, HEADER, SENSOR_ERROR};
use uno_sampler::ticks::TickState;
use uno_sampler::timer::{ticks_per_sample, ConfigError, Prescaler, TimerConfig};

fn running(threshold: u32, millis_per_tick: u32) -> Shared {
    let mut shared = Shared::new(TickState::new(threshold, millis_per_tick));
    shared.enable_interrupts();
    shared
}

#[test]
fn supported_prescalers_select_matching_divider() {
    assert_eq!(Prescaler::from_divider(8), Some(Prescaler::Div8));
    assert_eq!(Prescaler::from_divider(64), Some(Prescaler::Div64));
    assert_eq!(Prescaler::from_divider(256), Some(Prescaler::Div256));
    assert_eq!(Prescaler::from_divider(1024), Some(Prescaler::Div1024));
    for d in [8u32, 64, 256, 1024] {
        let cfg = TimerConfig::configure(d, 250).unwrap();
        assert_eq!(cfg.prescaler.divider(), d);
        assert_eq!(cfg.compare, 250);
    }
}

#[test]
fn unsupported_prescalers_are_refused() {
    for d in [0u32, 1, 2, 7, 9, 32, 128, 512, 1023, 1025, 2048, u32::MAX] {
        assert_eq!(Prescaler::from_divider(d), None);
        assert_eq!(TimerConfig::configure(d, 250), Err(ConfigError::UnsupportedPrescaler));
        assert!(matches!(setup(d, 250, 10_000), Err(ConfigError::UnsupportedPrescaler)));
    }
}

#[test]
fn compare_count_out_of_range() {
    assert_eq!(TimerConfig::configure(1024, 0), Err(ConfigError::CompareOutOfRange));
    assert_eq!(TimerConfig::configure(1024, 256), Err(ConfigError::CompareOutOfRange));
    assert_eq!(TimerConfig::configure(1024, 255).unwrap().compare, 255);
    assert_eq!(TimerConfig::configure(64, 1).unwrap().compare, 1);
}

#[test]
fn period_formula() {
    assert_eq!(TimerConfig::configure(1024, 250).unwrap().period_millis(), 16);
    assert_eq!(TimerConfig::configure(64, 250).unwrap().period_millis(), 1);
    assert_eq!(TimerConfig::configure(256, 125).unwrap().period_millis(), 2);
    assert_eq!(TimerConfig::configure(8, 255).unwrap().period_millis(), 0);
    assert_eq!(ticks_per_sample(10_000, 16), Some(625));
    assert_eq!(ticks_per_sample(10_000, 3), Some(3333));
    assert_eq!(ticks_per_sample(10_000, 0), None);
    assert_eq!(ticks_per_sample(15, 16), None);
    assert_eq!(ticks_per_sample(16, 16), Some(1));
}

#[test]
fn sample_period_too_short() {
    assert!(matches!(setup(8, 255, 10_000), Err(ConfigError::SamplePeriodTooShort)));
    assert!(matches!(setup(1024, 250, 15), Err(ConfigError::SamplePeriodTooShort)));
    assert!(matches!(setup(1024, 0, 10_000), Err(ConfigError::CompareOutOfRange)));
}

#[test]
fn scenario_sixteen_ms_period_sets_flag_once_after_625() {
    let s = setup(1024, 250, 10_000).unwrap();
    assert_eq!(s.timer.period_millis(), 16);
    assert_eq!(s.cells.threshold, 625);
    assert_eq!(s.cells.millis_per_tick, 16);
    let mut shared = Shared::new(s.cells);
    shared.enable_interrupts();
    let mut sets = 0;
    let mut was_due = false;
    for i in 1..=625u32 {
        shared.handle_interrupt();
        let due = shared.snapshot().sample_due;
        if due && !was_due {
            sets += 1;
            assert_eq!(i, 625);
        }
        was_due = due;
    }
    let cells = shared.snapshot();
    assert_eq!(sets, 1);
    assert_eq!(cells.ticks, 0);
    assert_eq!(shared.millis(), 10_000);
    assert!(shared.take_sample());
    assert!(!shared.take_sample());
}

#[test]
fn scenario_sensor_error_reports_one_line() {
    let mut shared = running(3, 16);
    let mut logger = Logger::new();
    for _ in 0..3 {
        shared.handle_interrupt();
    }
    assert_eq!(logger.poll(&mut shared), Action::ReadSensor);
    let line = logger.report(Err(ReadError::Checksum));
    assert_eq!(line, b"sensor error -- skipping to next read\r\n".to_vec());
    assert_eq!(line.iter().filter(|b| **b == b'\n').count(), 1);
    assert!(!shared.snapshot().sample_due);
    assert!(shared.interrupts_enabled());
    // The cadence goes on: the next sample is due after another period.
    assert_eq!(logger.poll(&mut shared), Action::Idle);
    shared.handle_interrupt();
    shared.handle_interrupt();
    assert_eq!(logger.poll(&mut shared), Action::Idle);
    shared.handle_interrupt();
    assert_eq!(logger.poll(&mut shared), Action::ReadSensor);
    assert_eq!(logger.seconds, 20);
}

#[test]
fn scenario_two_crossings_before_consumption_give_one_sample() {
    let mut shared = running(1, 16);
    let mut logger = Logger::new();
    shared.handle_interrupt();
    shared.handle_interrupt();
    assert!(shared.snapshot().sample_due);
    assert_eq!(logger.poll(&mut shared), Action::ReadSensor);
    assert_eq!(logger.poll(&mut shared), Action::Idle);
    assert_eq!(logger.seconds, 10);
}

#[test]
fn flag_set_once_per_crossing() {
    let mut shared = running(4, 1);
    let mut consumed = 0;
    for i in 1..=20u32 {
        shared.handle_interrupt();
        if shared.take_sample() {
            consumed += 1;
            assert_eq!(i % 4, 0);
        }
    }
    assert_eq!(consumed, 5);
}

#[test]
fn pending_flag_is_not_queued() {
    let mut shared = running(2, 1);
    for _ in 0..10 {
        shared.handle_interrupt();
    }
    assert!(shared.take_sample());
    assert!(!shared.take_sample());
}

#[test]
fn millis_advances_by_increment() {
    let mut cells = TickState::new(5, 16);
    let mut last = cells.millis();
    for _ in 0..100 {
        cells.on_interrupt();
        assert_eq!(cells.millis(), last + 16);
        last = cells.millis();
    }
    assert_eq!(last, 1600);
}

#[test]
fn millis_wraps_at_width() {
    let mut cells = TickState::new(5, 1);
    cells.millis = u32::MAX;
    cells.on_interrupt();
    assert_eq!(cells.millis, 0);
    let mut cells = TickState::new(5, 16);
    cells.millis = u32::MAX - 5;
    cells.on_interrupt();
    assert_eq!(cells.millis, 10);
}

#[test]
fn critical_section_restores_enabled_state() {
    let mut shared = running(3, 1);
    let r: Result<u32, u32> = shared.with_interrupts_disabled(|c| (c, Err(7)));
    assert_eq!(r, Err(7));
    assert!(shared.interrupts_enabled());
    let r: Result<u32, u32> = shared.with_interrupts_disabled(|c| (c, Ok(c.ticks)));
    assert_eq!(r, Ok(0));
    assert!(shared.interrupts_enabled());
    let mut off = Shared::new(TickState::new(3, 1));
    let v = off.with_interrupts_disabled(|mut c| {
        c.sample_due = true;
        (c, 1u8)
    });
    assert_eq!(v, 1);
    assert!(!off.interrupts_enabled());
    assert!(off.snapshot().sample_due);
}

#[test]
fn report_line_formats_reading() {
    let r = SensorReading {
        temperature: 23,
        temperature_decimal: 4,
        relative_humidity: 41,
        relative_humidity_decimal: 0,
    };
    assert_eq!(report_line(10, Ok(r)), b"10, 23.4, 41.0\r\n".to_vec());
    let cold = SensorReading {
        temperature: -128,
        temperature_decimal: 9,
        relative_humidity: 100,
        relative_humidity_decimal: 255,
    };
    assert_eq!(report_line(0, Ok(cold)), b"0, -128.9, 100.255\r\n".to_vec());
    assert_eq!(
        report_line(u32::MAX, Ok(r)),
        b"4294967295, 23.4, 41.0\r\n".to_vec()
    );
}

#[test]
fn report_line_for_each_error() {
    for e in [ReadError::Checksum, ReadError::Timeout, ReadError::Pin] {
        let mut expected = SENSOR_ERROR.as_bytes().to_vec();
        expected.extend_from_slice(b"\r\n");
        assert_eq!(report_line(30, Err(e)), expected);
    }
}

#[test]
fn header_line() {
    assert_eq!(header(), b"Seconds, Temperature C, Humidity\r\n".to_vec());
    assert_eq!(HEADER, "Seconds, Temperature C, Humidity");
}

#[test]
fn logger_time_column() {
    let mut logger = Logger::new();
    assert_eq!(logger.on_probe(false), Action::Idle);
    assert_eq!(logger.seconds, 0);
    assert_eq!(logger.on_probe(true), Action::ReadSensor);
    assert_eq!(logger.seconds, 10);
    logger.seconds = u32::MAX - 3;
    assert_eq!(logger.on_probe(true), Action::ReadSensor);
    assert_eq!(logger.seconds, 6);
    let r = SensorReading {
        temperature: 5,
        temperature_decimal: 0,
        relative_humidity: 60,
        relative_humidity_decimal: 2,
    };
    assert_eq!(logger.report(Ok(r)), b"6, 5.0, 60.2\r\n".to_vec());
}

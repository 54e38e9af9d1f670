use vstd::prelude::*;
use vstd::string::StringSliceAdditionalSpecFns;

verus! {

/// Heading of the report, written once before sampling starts.
pub const HEADER: &'static str = "Seconds, Temperature C, Humidity";

/// Line written in place of a reading when the sensor read fails.
pub const SENSOR_ERROR: &'static str = "sensor error -- skipping to next read";

/// Seconds that one sample period adds to the report's time column.
pub const SAMPLE_SECONDS: u32 = 10;

/// One reading of the humidity/temperature sensor: each quantity as an
/// integer part and a fractional digit part.
#[derive(Clone, Copy, Debug, PartialEq, Eq, Structural)]
pub struct SensorReading {
    pub temperature: i8,
    pub temperature_decimal: u8,
    pub relative_humidity: u8,
    pub relative_humidity_decimal: u8,
}

/// Why a sensor read failed; the loop reports it and waits for the next period.
#[derive(Clone, Copy, Debug, PartialEq, Eq, Structural)]
pub enum ReadError {
    /// The received checksum did not match the data.
    Checksum,
    /// The sensor's signal did not follow the protocol's timing.
    Timeout,
    /// The pin could not be driven or read.
    Pin,
}

/// ASCII decimal digits of `n`, most significant first, without leading zeros.
pub open spec fn decimal(n: nat) -> Seq<u8>
    decreases n,
{
    if n < 10 {
        seq![(48 + n) as u8]
    } else {
        decimal(n / 10).push((48 + n % 10) as u8)
    }
}

/// ASCII text of a signed integer: a minus sign before the digits when negative.
pub open spec fn signed_decimal(i: int) -> Seq<u8> {
    if i < 0 {
        seq![45u8] + decimal((-i) as nat)
    } else {
        decimal(i as nat)
    }
}

/// The line terminator of the serial report: carriage return, line feed.
pub open spec fn line_end() -> Seq<u8> {
    seq![13u8, 10u8]
}

/// `", "`, between the columns.
pub open spec fn column_sep() -> Seq<u8> {
    seq![44u8, 32u8]
}

/// The report line of a successful reading taken at `seconds`:
/// `seconds, temperature.decimal, humidity.decimal` and the terminator.
pub open spec fn reading_line(seconds: nat, r: SensorReading) -> Seq<u8> {
    decimal(seconds) + column_sep() + signed_decimal(r.temperature as int) + seq![46u8]
        + decimal(r.temperature_decimal as nat) + column_sep() + decimal(
        r.relative_humidity as nat,
    ) + seq![46u8] + decimal(r.relative_humidity_decimal as nat) + line_end()
}

/// The report line that stands for a failed read.
pub open spec fn error_line() -> Seq<u8> {
    SENSOR_ERROR.spec_bytes() + line_end()
}

/// The heading line.
pub open spec fn header_line() -> Seq<u8> {
    HEADER.spec_bytes() + line_end()
}

/// Appends the decimal digits of `n`.
pub fn push_decimal(out: &mut Vec<u8>, n: u32)
    ensures
        final(out)@ == old(out)@ + decimal(n as nat),
    decreases n,
{
    if n >= 10 {
        push_decimal(out, n / 10);
    }
    out.push((48 + n % 10) as u8);
    proof {
        if n < 10 {
            vstd::arithmetic::div_mod::lemma_small_mod(n as nat, 10);
        }
    }
    assert(final(out)@ =~= old(out)@ + decimal(n as nat));
}

/// Appends a signed integer in decimal.
pub fn push_signed_decimal(out: &mut Vec<u8>, i: i8)
    ensures
        final(out)@ == old(out)@ + signed_decimal(i as int),
{
    if i < 0 {
        out.push(45u8);
        let magnitude: u32 = (0 - (i as i32)) as u32;
        push_decimal(out, magnitude);
        assert(final(out)@ =~= old(out)@ + signed_decimal(i as int));
    } else {
        push_decimal(out, i as u32);
    }
}

/// Appends the bytes of a text.
fn push_text(out: &mut Vec<u8>, s: &str)
    ensures
        final(out)@ == old(out)@ + s.spec_bytes(),
{
    out.extend_from_slice(s.as_bytes());
}

/// Appends carriage return and line feed.
fn push_line_end(out: &mut Vec<u8>)
    ensures
        final(out)@ == old(out)@ + line_end(),
{
    out.push(13u8);
    out.push(10u8);
    assert(final(out)@ =~= old(out)@ + line_end());
}

/// Appends `", "`.
fn push_column_sep(out: &mut Vec<u8>)
    ensures
        final(out)@ == old(out)@ + column_sep(),
{
    out.push(44u8);
    out.push(32u8);
    assert(final(out)@ =~= old(out)@ + column_sep());
}

/// The heading line of the report.
pub fn header() -> (r: Vec<u8>)
    ensures
        r@ == header_line(),
{
    let mut out: Vec<u8> = Vec::new();
    push_text(&mut out, HEADER);
    push_line_end(&mut out);
    assert(out@ =~= header_line());
    out
}

/// The line that the polling loop writes for one sensor outcome at `seconds`:
/// the reading's columns on success, one diagnostic line on any read error.
pub fn report_line(seconds: u32, outcome: Result<SensorReading, ReadError>) -> (r: Vec<u8>)
    ensures
        outcome.is_ok() ==> r@ == reading_line(seconds as nat, outcome.unwrap()),
        outcome.is_err() ==> r@ == error_line(),
{
    let mut out: Vec<u8> = Vec::new();
    match outcome {
        Ok(reading) => {
            push_decimal(&mut out, seconds);
            push_column_sep(&mut out);
            push_signed_decimal(&mut out, reading.temperature);
            out.push(46u8);
            push_decimal(&mut out, reading.temperature_decimal as u32);
            push_column_sep(&mut out);
            push_decimal(&mut out, reading.relative_humidity as u32);
            out.push(46u8);
            push_decimal(&mut out, reading.relative_humidity_decimal as u32);
            push_line_end(&mut out);
            assert(out@ =~= reading_line(seconds as nat, reading));
        },
        Err(_) => {
            push_text(&mut out, SENSOR_ERROR);
            push_line_end(&mut out);
            assert(out@ =~= error_line());
        },
    }
    out
}

} // verus!

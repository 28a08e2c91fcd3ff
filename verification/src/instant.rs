//! Instants on the time axis, in nanoseconds since the Unix epoch, and the
//! text shown for them.

use vstd::prelude::*;

verus! {

/// Nanoseconds in one minute.
pub const NANOS_PER_MINUTE: i128 = 60_000_000_000;

/// The earliest instant that can be shown: year -9999, less the widest
/// time zone offset.
pub const MIN_NANOSECOND: i128 = -377_705_023_201_000_000_000;

/// The latest instant that can be shown: the end of year 9999, less the
/// widest time zone offset.
pub const MAX_NANOSECOND: i128 = 253_402_207_200_999_999_999;

/// The format of the time in a tooltip: short weekday, day without
/// padding, short month, year, and the time of day to the second.
pub const TOOLTIP_TIME_FORMAT: &'static str = "%a, %-d %b %Y %T";

/// Why an instant has no text.
#[derive(Clone, Copy, Debug, PartialEq, Eq, Structural)]
pub enum TimeError {
    /// The instant lies outside `MIN_NANOSECOND ..= MAX_NANOSECOND`.
    OutOfRange,
    /// The calendar library rejected the format.
    Unformattable,
}

/// Whether `nanos` is an instant that the calendar can hold.
pub open spec fn representable(nanos: int) -> bool {
    MIN_NANOSECOND <= nanos <= MAX_NANOSECOND
}

/// The multiple of `step` nearest to `quantity`; of two equally near, the
/// one farther from zero.
pub open spec fn round_half_expand(quantity: int, step: int) -> int
    recommends
        step > 0,
{
    let below = (quantity / step) * step;
    let excess = quantity % step;
    if excess == 0 {
        quantity
    } else if quantity >= 0 {
        if 2 * excess >= step { below + step } else { below }
    } else {
        if 2 * excess > step { below + step } else { below }
    }
}

/// Runtime test of [`representable`].
pub fn is_representable(nanos: i128) -> (r: bool)
    ensures
        r == representable(nanos as int),
{
    MIN_NANOSECOND <= nanos && nanos <= MAX_NANOSECOND
}

/// The opaque error of the calendar library.
#[verifier::external_type_specification]
#[verifier::external_body]
pub struct ExCalendarError(jiff::Error);

/// What `jiff::fmt::strtime::format` writes for the instant `nanos` seen
/// in UTC, or `None` where it rejects `format`.
pub uninterp spec fn utc_strtime(format: Seq<char>, nanos: int) -> Option<Seq<char>>;

/// What `jiff::Timestamp` displays for the instant `nanos`.
pub uninterp spec fn timestamp_text(nanos: int) -> Seq<char>;

/// Calls `jiff::Timestamp::round` with a one-minute increment and the
/// default mode, which rounds to the nearest minute and breaks a tie away
/// from zero. The call fails exactly where the rounded instant leaves the
/// representable range.
#[verifier::external_body]
fn round_to_minute(nanos: i128) -> (r: Result<i128, jiff::Error>)
    requires
        representable(nanos as int),
    ensures
        r is Ok <==> representable(round_half_expand(nanos as int, NANOS_PER_MINUTE as int)),
        r is Ok ==> r->Ok_0 == round_half_expand(nanos as int, NANOS_PER_MINUTE as int),
{
    let instant = jiff::Timestamp::from_nanosecond(nanos)?;
    let rounded = instant.round((jiff::Unit::Minute, 1))?;
    Ok(rounded.as_nanosecond())
}

/// Calls `jiff::fmt::strtime::format` on the instant `nanos` placed in
/// UTC. The text depends on the two arguments alone; it is named, not
/// spelled out.
#[verifier::external_body]
fn format_utc(format: &str, nanos: i128) -> (r: Result<String, jiff::Error>)
    requires
        representable(nanos as int),
    ensures
        r is Ok <==> utc_strtime(format@, nanos as int) is Some,
        r is Ok ==> r->Ok_0@ == utc_strtime(format@, nanos as int)->Some_0,
{
    let instant = jiff::Timestamp::from_nanosecond(nanos)?;
    let zoned = instant.to_zoned(jiff::tz::TimeZone::UTC);
    jiff::fmt::strtime::format(format, &zoned)
}

/// Formats a `jiff::Timestamp` through its `Display` impl. The impl
/// writes into a `String`, so it does not fail for a representable
/// instant; the text depends on the instant alone and is named, not
/// spelled out.
#[verifier::external_body]
fn display_timestamp(nanos: i128) -> (r: Result<String, jiff::Error>)
    requires
        representable(nanos as int),
    ensures
        r is Ok,
        r->Ok_0@ == timestamp_text(nanos as int),
{
    let instant = jiff::Timestamp::from_nanosecond(nanos)?;
    Ok(format!("{instant:#}"))
}

/// The time shown in a tooltip for the instant `nanos`: the instant
/// rounded to the nearest minute, in UTC.
pub open spec fn spec_tooltip_time(nanos: int) -> Result<Seq<char>, TimeError> {
    if !representable(nanos) {
        Err(TimeError::OutOfRange)
    } else {
        match utc_strtime(
            TOOLTIP_TIME_FORMAT@,
            round_half_expand(nanos, NANOS_PER_MINUTE as int),
        ) {
            Some(text) => Ok(text),
            None => Err(TimeError::Unformattable),
        }
    }
}

/// The time shown on an axis tick for the instant `nanos`.
pub open spec fn spec_axis_time(nanos: int) -> Result<Seq<char>, TimeError> {
    if representable(nanos) {
        Ok(timestamp_text(nanos))
    } else {
        Err(TimeError::OutOfRange)
    }
}

/// Rounding a representable instant to the minute keeps it representable:
/// both ends of the range lie within a second of a whole minute.
pub proof fn lemma_rounded_minute_representable(nanos: int)
    requires
        representable(nanos),
    ensures
        representable(round_half_expand(nanos, NANOS_PER_MINUTE as int)),
        round_half_expand(nanos, NANOS_PER_MINUTE as int) % (NANOS_PER_MINUTE as int) == 0,
        -(NANOS_PER_MINUTE as int) <= 2 * (round_half_expand(nanos, NANOS_PER_MINUTE as int) - nanos)
            <= NANOS_PER_MINUTE as int,
{
}

/// Writes the tooltip time of `nanos`. Should rounding to the minute
/// fail, the instant is shown as it is; for a representable instant it
/// does not fail.
pub fn tooltip_time(nanos: i128) -> (r: Result<String, TimeError>)
    ensures
        match r {
            Ok(text) => spec_tooltip_time(nanos as int) == Ok::<Seq<char>, TimeError>(text@),
            Err(e) => spec_tooltip_time(nanos as int) == Err::<Seq<char>, TimeError>(e),
        },
{
    if !is_representable(nanos) {
        return Err(TimeError::OutOfRange);
    }
    proof {
        lemma_rounded_minute_representable(nanos as int);
    }
    let minute = match round_to_minute(nanos) {
        Ok(rounded) => rounded,
        Err(_) => nanos,
    };
    match format_utc(TOOLTIP_TIME_FORMAT, minute) {
        Ok(text) => Ok(text),
        Err(_) => Err(TimeError::Unformattable),
    }
}

/// Writes the axis tick time of `nanos`.
pub fn axis_time(nanos: i128) -> (r: Result<String, TimeError>)
    ensures
        match r {
            Ok(text) => spec_axis_time(nanos as int) == Ok::<Seq<char>, TimeError>(text@),
            Err(e) => spec_axis_time(nanos as int) == Err::<Seq<char>, TimeError>(e),
        },
{
    if !is_representable(nanos) {
        return Err(TimeError::OutOfRange);
    }
    Ok(display_timestamp(nanos).unwrap())
}

} // verus!

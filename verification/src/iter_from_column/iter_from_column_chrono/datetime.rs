use vstd::prelude::*;
use chrono::DateTime;
use polars::prelude::Column;
use crate::cursor::ColumnCursor;
use crate::dtype::ColumnType;
use crate::dtype::Target;
use crate::dtype::TimeUnit;
use crate::error::outcome_view;
use crate::error::RowError;
use crate::error::RowErrorView;
use crate::frame::open_datetime;
use crate::iter_from_column::finish_open;
use crate::iter_from_column::opened;
use crate::iter_from_column::IterFromColumn;
use crate::value::Timestamp;

verus! {

/// The first second that a calendar date and time can stand for: the start
/// of the year -262143.
pub const MIN_UTC_SECONDS: i64 = -8_334_601_228_800;

/// The last second that a calendar date and time can stand for: the end of
/// the year 262142.
pub const MAX_UTC_SECONDS: i64 = 8_210_266_876_799;

/// Whether a count of seconds since 1970-01-01 00:00:00 UTC is a calendar
/// date and time.
pub open spec fn seconds_in_range(secs: int) -> bool {
    MIN_UTC_SECONDS <= secs <= MAX_UTC_SECONDS
}

/// The instant `count` units of `per_second` to the second after
/// 1970-01-01 00:00:00 UTC, as whole seconds and the nanoseconds into the
/// second. Seconds round down, also before 1970.
pub open spec fn instant(count: int, per_second: int) -> Timestamp {
    Timestamp {
        secs: (count / per_second) as i64,
        nanos: ((count % per_second) * (1_000_000_000int / per_second)) as u32,
    }
}

/// `DateTime::from_timestamp_nanos`, with the date and time it makes as a
/// `Timestamp`. Every 64-bit count of nanoseconds is a date and time.
#[verifier::external_body]
pub(crate) fn utc_from_nanos(nanos: i64) -> (t: Timestamp)
    ensures
        t == instant(nanos as int, 1_000_000_000),
{
    let t = DateTime::from_timestamp_nanos(nanos);
    Timestamp { secs: t.timestamp(), nanos: t.timestamp_subsec_nanos() }
}

/// `DateTime::from_timestamp_micros`, with the date and time it makes as a
/// `Timestamp`. It makes none where the seconds are out of the calendar's
/// range.
#[verifier::external_body]
pub(crate) fn utc_from_micros(micros: i64) -> (t: Option<Timestamp>)
    ensures
        t == (if seconds_in_range(micros as int / 1_000_000) {
            Some(instant(micros as int, 1_000_000))
        } else {
            None
        }),
{
    match DateTime::from_timestamp_micros(micros) {
        Some(t) => Some(Timestamp { secs: t.timestamp(), nanos: t.timestamp_subsec_nanos() }),
        None => None,
    }
}

/// `DateTime::from_timestamp_millis`, with the date and time it makes as a
/// `Timestamp`. It makes none where the seconds are out of the calendar's
/// range.
#[verifier::external_body]
pub(crate) fn utc_from_millis(millis: i64) -> (t: Option<Timestamp>)
    ensures
        t == (if seconds_in_range(millis as int / 1000) {
            Some(instant(millis as int, 1000))
        } else {
            None
        }),
{
    match DateTime::from_timestamp_millis(millis) {
        Some(t) => Some(Timestamp { secs: t.timestamp(), nanos: t.timestamp_subsec_nanos() }),
        None => None,
    }
}

/// The date and time that the raw count `timestamp` of a column of element
/// type `dtype` stands for, or the failure of the conversion.
pub open spec fn create_datetime_spec(timestamp: i64, column_name: Seq<char>, dtype: ColumnType) -> Result<
    Timestamp,
    RowErrorView,
> {
    match dtype {
        ColumnType::Datetime(TimeUnit::Nanoseconds) => Ok(instant(timestamp as int, 1_000_000_000)),
        ColumnType::Datetime(TimeUnit::Microseconds) => if seconds_in_range(timestamp as int / 1_000_000) {
            Ok(instant(timestamp as int, 1_000_000))
        } else {
            Err(RowErrorView::OutOfRangeTemporal { value: timestamp, column: column_name })
        },
        ColumnType::Datetime(TimeUnit::Milliseconds) => if seconds_in_range(timestamp as int / 1000) {
            Ok(instant(timestamp as int, 1000))
        } else {
            Err(RowErrorView::OutOfRangeTemporal { value: timestamp, column: column_name })
        },
        _ => Err(
            RowErrorView::IncompatibleEncoding { column: column_name, dtype, target: Target::DateTime },
        ),
    }
}

/// A cursor over the raw counts of a date-and-time column.
pub fn create_datetime_iter<'a>(column: &'a Column) -> (res: Result<ColumnCursor<'a>, RowError>)
    ensures
        opened(res, *column, Target::DateTime),
{
    finish_open(open_datetime(column), column, Target::DateTime)
}

/// Reads the raw count `timestamp` at the time unit of `dtype`. A count of
/// nanoseconds is always a date and time; one of microseconds or
/// milliseconds may be out of range, which fails naming the value and the
/// column. An element type without a time unit fails as incompatible.
pub fn create_datetime(timestamp: i64, column_name: &str, dtype: ColumnType) -> (res: Result<Timestamp, RowError>)
    ensures
        outcome_view(res) == create_datetime_spec(timestamp, column_name@, dtype),
{
    let time_unit = match dtype {
        ColumnType::Datetime(tu) => tu,
        _ => {
            return Err(
                RowError::IncompatibleEncoding { column: column_name.to_owned(), dtype, target: Target::DateTime },
            );
        },
    };
    match time_unit {
        TimeUnit::Nanoseconds => Ok(utc_from_nanos(timestamp)),
        TimeUnit::Microseconds => match utc_from_micros(timestamp) {
            Some(t) => Ok(t),
            None => Err(RowError::OutOfRangeTemporal { value: timestamp, column: column_name.to_owned() }),
        },
        TimeUnit::Milliseconds => match utc_from_millis(timestamp) {
            Some(t) => Ok(t),
            None => Err(RowError::OutOfRangeTemporal { value: timestamp, column: column_name.to_owned() }),
        },
    }
}

/// The date and time of a mandatory field: a null fails naming the column,
/// a count is read as `create_datetime` reads it.
pub fn get_value(polars_value: Option<i64>, column_name: &str, dtype: ColumnType) -> (res: Result<Timestamp, RowError>)
    ensures
        outcome_view(res) == match polars_value {
            Some(timestamp) => create_datetime_spec(timestamp, column_name@, dtype),
            None => Err(RowErrorView::UnexpectedNull { column: column_name@ }),
        },
{
    match polars_value {
        Some(timestamp) => create_datetime(timestamp, column_name, dtype),
        None => Err(IterFromColumn::unexpected_null_value_error(column_name)),
    }
}

/// The date and time of an optional field: a null is the absent value, a
/// count is read as `create_datetime` reads it.
pub fn get_optional_value(polars_value: Option<i64>, column_name: &str, dtype: ColumnType) -> (res: Result<
    Option<Timestamp>,
    RowError,
>)
    ensures
        outcome_view(res) == match polars_value {
            Some(timestamp) => match create_datetime_spec(timestamp, column_name@, dtype) {
                Ok(t) => Ok(Some(t)),
                Err(e) => Err(e),
            },
            None => Ok(None),
        },
{
    match polars_value {
        Some(timestamp) => match create_datetime(timestamp, column_name, dtype) {
            Ok(t) => Ok(Some(t)),
            Err(e) => Err(e),
        },
        None => Ok(None),
    }
}

} // verus!

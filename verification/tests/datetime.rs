use chrono::DateTime;
use chrono::Utc;
use polars::prelude::Column;
use polars::prelude::DataFrame;
use polars::prelude::DataType;
use polars::prelude::TimeUnit;
use polars_rows_iter::dataframe_rows_iter_ext::DataframeRowsIterExt;
use polars_rows_iter::dtype::ColumnType;
use polars_rows_iter::dtype::Target;
use polars_rows_iter::error::RowError;
use polars_rows_iter::from_dataframe_row::FromDataFrameRow;
use polars_rows_iter::iter_from_column::iter_from_column_chrono::datetime::create_datetime;
use polars_rows_iter::iter_from_column::iter_from_column_chrono::datetime::create_datetime_iter;
use polars_rows_iter::iter_from_column::iter_from_column_chrono::datetime::get_optional_value;
use polars_rows_iter::iter_from_column::iter_from_column_chrono::datetime::get_value;
use polars_rows_iter::iter_from_column::iter_from_column_chrono::datetime::MAX_UTC_SECONDS;
use polars_rows_iter::iter_from_column::iter_from_column_chrono::datetime::MIN_UTC_SECONDS;
use polars_rows_iter::iter_from_column::IterFromColumn;
use polars_rows_iter::value::RawValue;
use polars_rows_iter::value::Row;
use polars_rows_iter::value::Timestamp;
use polars_rows_iter::value::Value;

fn timestamp(dt: DateTime<Utc>) -> Timestamp {
    Timestamp { secs: dt.timestamp(), nanos: dt.timestamp_subsec_nanos() }
}

fn at(secs: i64) -> Value<'static> {
    Value::DateTime(timestamp(DateTime::<Utc>::from_timestamp(secs, 0).unwrap()))
}

#[test]
fn datetime_should_be_read_from_datetime_millis() {
    let column_id = Column::new("id".into(), vec![1i32, 2, 3, 4, 5]);
    let column_datetime = Column::new(
        "dt".into(),
        vec![1732122821000i64, 1700500421000, 1668964421000, 1637428421000, 1605892421000],
    )
    .cast(&DataType::Datetime(TimeUnit::Milliseconds, None))
    .unwrap();
    let column_datetime_opt = Column::new(
        "dt_opt".into(),
        vec![Some(1605892421000i64), None, Some(1700500421000), None, Some(1637428421000)],
    )
    .cast(&DataType::Datetime(TimeUnit::Milliseconds, None))
    .unwrap();

    let df = DataFrame::new(vec![column_id, column_datetime, column_datetime_opt]).unwrap();

    let shape = FromDataFrameRow::new()
        .field("id", IterFromColumn::mandatory(Target::I32))
        .field("dt", IterFromColumn::mandatory(Target::DateTime))
        .field("dt_opt", IterFromColumn::optional(Target::DateTime));

    let rows: Vec<Row> = df.rows_iter(&shape).unwrap().collect().into_iter().map(|row| row.unwrap()).collect();

    assert_eq!(
        rows,
        vec![
            Row { cells: vec![Some(Value::I32(1)), Some(at(1732122821)), Some(at(1605892421))] },
            Row { cells: vec![Some(Value::I32(2)), Some(at(1700500421)), None] },
            Row { cells: vec![Some(Value::I32(3)), Some(at(1668964421)), Some(at(1700500421))] },
            Row { cells: vec![Some(Value::I32(4)), Some(at(1637428421)), None] },
            Row { cells: vec![Some(Value::I32(5)), Some(at(1605892421)), Some(at(1637428421))] },
        ]
    )
}

#[test]
fn a_count_is_read_at_the_time_unit_of_the_column() {
    let millis = ColumnType::Datetime(polars_rows_iter::dtype::TimeUnit::Milliseconds);
    let micros = ColumnType::Datetime(polars_rows_iter::dtype::TimeUnit::Microseconds);
    let nanos = ColumnType::Datetime(polars_rows_iter::dtype::TimeUnit::Nanoseconds);

    assert_eq!(create_datetime(1732122821004, "dt", millis), Ok(Timestamp { secs: 1732122821, nanos: 4_000_000 }));
    assert_eq!(create_datetime(1732122821004, "dt", micros), Ok(Timestamp { secs: 1732122, nanos: 821_004_000 }));
    assert_eq!(create_datetime(1732122821004, "dt", nanos), Ok(Timestamp { secs: 1732, nanos: 122_821_004 }));
    assert_eq!(create_datetime(0, "dt", millis), Ok(Timestamp { secs: 0, nanos: 0 }));
}

#[test]
fn a_count_before_1970_rounds_down_to_the_second() {
    let millis = ColumnType::Datetime(polars_rows_iter::dtype::TimeUnit::Milliseconds);
    let micros = ColumnType::Datetime(polars_rows_iter::dtype::TimeUnit::Microseconds);
    let nanos = ColumnType::Datetime(polars_rows_iter::dtype::TimeUnit::Nanoseconds);

    assert_eq!(create_datetime(-1, "dt", millis), Ok(Timestamp { secs: -1, nanos: 999_000_000 }));
    assert_eq!(create_datetime(-1, "dt", micros), Ok(Timestamp { secs: -1, nanos: 999_999_000 }));
    assert_eq!(create_datetime(-1, "dt", nanos), Ok(Timestamp { secs: -1, nanos: 999_999_999 }));
    assert_eq!(create_datetime(-1500, "dt", millis), Ok(Timestamp { secs: -2, nanos: 500_000_000 }));
    assert_eq!(
        create_datetime(-2208936075000000, "dt", micros),
        Ok(timestamp(DateTime::<Utc>::from_timestamp(-2208936075, 0).unwrap()))
    );
}

#[test]
fn every_count_of_nanoseconds_is_a_date_and_time() {
    let nanos = ColumnType::Datetime(polars_rows_iter::dtype::TimeUnit::Nanoseconds);
    assert_eq!(create_datetime(i64::MAX, "dt", nanos), Ok(Timestamp { secs: 9223372036, nanos: 854_775_807 }));
    assert_eq!(create_datetime(i64::MIN, "dt", nanos), Ok(Timestamp { secs: -9223372037, nanos: 145_224_192 }));
}

#[test]
fn the_calendar_ends_where_chrono_ends_it() {
    assert_eq!(MIN_UTC_SECONDS, DateTime::<Utc>::MIN_UTC.timestamp());
    assert_eq!(MAX_UTC_SECONDS, DateTime::<Utc>::MAX_UTC.timestamp());
}

#[test]
fn milliseconds_out_of_range_fail_naming_value_and_column() {
    let millis = ColumnType::Datetime(polars_rows_iter::dtype::TimeUnit::Milliseconds);
    let last = MAX_UTC_SECONDS * 1000 + 999;
    let first = MIN_UTC_SECONDS * 1000;

    assert_eq!(create_datetime(last, "dt", millis), Ok(Timestamp { secs: MAX_UTC_SECONDS, nanos: 999_000_000 }));
    assert_eq!(create_datetime(first, "dt", millis), Ok(Timestamp { secs: MIN_UTC_SECONDS, nanos: 0 }));
    assert_eq!(
        create_datetime(last + 1, "dt", millis),
        Err(RowError::OutOfRangeTemporal { value: last + 1, column: "dt".to_string() })
    );
    assert_eq!(
        create_datetime(first - 1, "dt", millis),
        Err(RowError::OutOfRangeTemporal { value: first - 1, column: "dt".to_string() })
    );
    assert_eq!(
        create_datetime(i64::MAX, "when", millis),
        Err(RowError::OutOfRangeTemporal { value: i64::MAX, column: "when".to_string() })
    );
    assert_eq!(
        create_datetime(i64::MIN, "when", millis),
        Err(RowError::OutOfRangeTemporal { value: i64::MIN, column: "when".to_string() })
    );
}

#[test]
fn microseconds_out_of_range_fail_naming_value_and_column() {
    let micros = ColumnType::Datetime(polars_rows_iter::dtype::TimeUnit::Microseconds);
    let last = MAX_UTC_SECONDS * 1_000_000 + 999_999;
    let first = MIN_UTC_SECONDS * 1_000_000;

    assert_eq!(create_datetime(last, "dt", micros), Ok(Timestamp { secs: MAX_UTC_SECONDS, nanos: 999_999_000 }));
    assert_eq!(create_datetime(first, "dt", micros), Ok(Timestamp { secs: MIN_UTC_SECONDS, nanos: 0 }));
    assert_eq!(
        create_datetime(last + 1, "dt", micros),
        Err(RowError::OutOfRangeTemporal { value: last + 1, column: "dt".to_string() })
    );
    assert_eq!(
        create_datetime(first - 1, "dt", micros),
        Err(RowError::OutOfRangeTemporal { value: first - 1, column: "dt".to_string() })
    );
    assert_eq!(
        create_datetime(i64::MAX, "dt", micros),
        Err(RowError::OutOfRangeTemporal { value: i64::MAX, column: "dt".to_string() })
    );
}

#[test]
fn an_element_type_without_time_unit_gives_no_date_and_time() {
    assert_eq!(
        create_datetime(5, "dt", ColumnType::Int64),
        Err(RowError::IncompatibleEncoding {
            column: "dt".to_string(),
            dtype: ColumnType::Int64,
            target: Target::DateTime
        })
    );
    let duration = ColumnType::Duration(polars_rows_iter::dtype::TimeUnit::Milliseconds);
    assert_eq!(
        create_datetime(5, "dt", duration),
        Err(RowError::IncompatibleEncoding { column: "dt".to_string(), dtype: duration, target: Target::DateTime })
    );
}

#[test]
fn a_null_is_a_failure_of_a_mandatory_date_and_time_only() {
    let millis = ColumnType::Datetime(polars_rows_iter::dtype::TimeUnit::Milliseconds);
    assert_eq!(get_value(None, "dt", millis), Err(RowError::UnexpectedNull { column: "dt".to_string() }));
    assert_eq!(get_value(Some(1500), "dt", millis), Ok(Timestamp { secs: 1, nanos: 500_000_000 }));
    assert_eq!(get_optional_value(None, "dt", millis), Ok(None));
    assert_eq!(get_optional_value(Some(1500), "dt", millis), Ok(Some(Timestamp { secs: 1, nanos: 500_000_000 })));
    assert_eq!(
        get_optional_value(Some(i64::MAX), "dt", millis),
        Err(RowError::OutOfRangeTemporal { value: i64::MAX, column: "dt".to_string() })
    );
}

#[test]
fn a_row_out_of_range_fails_alone_and_the_sequence_goes_on() {
    let column = Column::new("dt".into(), vec![Some(1000i64), Some(i64::MAX), None, Some(2000)])
        .cast(&DataType::Datetime(TimeUnit::Microseconds, None))
        .unwrap();
    let df = DataFrame::new(vec![column]).unwrap();
    let shape = FromDataFrameRow::new().field("dt", IterFromColumn::optional(Target::DateTime));
    let rows = df.rows_iter(&shape).unwrap().collect();
    assert_eq!(
        rows,
        vec![
            Ok(Row { cells: vec![Some(Value::DateTime(Timestamp { secs: 0, nanos: 1_000_000 }))] }),
            Err(RowError::OutOfRangeTemporal { value: i64::MAX, column: "dt".to_string() }),
            Ok(Row { cells: vec![None] }),
            Ok(Row { cells: vec![Some(Value::DateTime(Timestamp { secs: 0, nanos: 2_000_000 }))] }),
        ]
    );
}

#[test]
fn a_date_and_time_cursor_opens_on_date_and_time_columns_only() {
    let plain = Column::new("n".into(), vec![1i64, 2]);
    assert_eq!(
        create_datetime_iter(&plain).err(),
        Some(RowError::IncompatibleEncoding {
            column: "n".to_string(),
            dtype: ColumnType::Int64,
            target: Target::DateTime
        })
    );
    let dated = Column::new("d".into(), vec![Some(7i64), None])
        .cast(&DataType::Datetime(TimeUnit::Nanoseconds, None))
        .unwrap();
    let mut cursor = create_datetime_iter(&dated).unwrap();
    assert_eq!(cursor.next(), Some(Some(RawValue::I64(7))));
    assert_eq!(cursor.next(), Some(None));
    assert_eq!(cursor.next(), None);
    assert_eq!(cursor.next(), None);
}

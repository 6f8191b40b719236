use polars::prelude::Column;
use polars::prelude::DataFrame;
use polars_rows_iter::column_names::ColumnNameBuilder;
use polars_rows_iter::column_names::ColumnNames;
use polars_rows_iter::dataframe_rows_iter_ext::DataframeRowsIterExt;
use polars_rows_iter::dtype::Target;
use polars_rows_iter::error::RowError;
use polars_rows_iter::from_dataframe_row::FromDataFrameRow;
use polars_rows_iter::iter_from_column::IterFromColumn;
use polars_rows_iter::value::Row;
use polars_rows_iter::value::Value;

/// A row of two mandatory 32-bit integers, `x1` and `x2`.
fn test_struct() -> FromDataFrameRow {
    FromDataFrameRow::new()
        .field("x1", IterFromColumn::mandatory(Target::I32))
        .field("x2", IterFromColumn::mandatory(Target::I32))
}

fn two_columns(first: &str, second: &str) -> DataFrame {
    DataFrame::new(vec![
        Column::new(first.into(), vec![1i32, 2, 3]),
        Column::new(second.into(), vec![10i32, 20, 30]),
    ])
    .unwrap()
}

#[test]
fn rows_iter_should_return_error_when_given_column_not_available() {
    let df = DataFrame::new(vec![
        Column::new("y1".into(), vec![1i32, 2, 3]),
        Column::new("x2".into(), vec![1i32, 2, 3]),
    ])
    .unwrap();

    let result = df.rows_iter(&test_struct());

    assert!(result.is_err());
}

#[test]
fn builder_should_build_hashmap_with_correct_entries() {
    let builder = test_struct().create_builder();
    let builder = builder.column("x1", "column_1").column("x2", "column_2");
    let columns = builder.build();

    assert_eq!("column_1", columns.get("x1").unwrap());
    assert_eq!("column_2", columns.get("x2").unwrap());
}

#[test]
fn rows_iter_with_columns_should_return_error_when_given_column_not_available() {
    let df = DataFrame::new(vec![
        Column::new("x1".into(), vec![1i32, 2, 3]),
        Column::new("x2".into(), vec![1i32, 2, 3]),
    ])
    .unwrap();

    let result = df.rows_iter_with_columns(&test_struct(), |b| b.column("x1", "y1"));

    assert!(result.is_err());
}

#[test]
fn rows_iter_with_columns_should_return_valid_iter() {
    let df = DataFrame::new(vec![
        Column::new("x_1".into(), vec![1i32, 2, 3]),
        Column::new("x_2".into(), vec![1i32, 2, 3]),
    ])
    .unwrap();

    let result = df.rows_iter_with_columns(&test_struct(), |b| b.column("x1", "x_1").column("x2", "x_2"));

    assert!(result.is_ok());
}

#[test]
fn missing_column_is_reported_by_its_resolved_name() {
    let df = two_columns("y1", "x2");
    let result = df.rows_iter(&test_struct());
    assert_eq!(result.err(), Some(RowError::MissingColumn { name: "x1".to_string() }));

    let df = two_columns("x1", "x2");
    let result = df.rows_iter_with_columns(&test_struct(), |b| b.column("x1", "y1"));
    assert_eq!(result.err(), Some(RowError::MissingColumn { name: "y1".to_string() }));
}

#[test]
fn the_first_field_that_cannot_be_bound_fails_the_call() {
    let df = two_columns("a", "b");
    let result = df.rows_iter(&test_struct());
    assert_eq!(result.err(), Some(RowError::MissingColumn { name: "x1".to_string() }));

    let df = two_columns("x1", "b");
    let result = df.rows_iter(&test_struct());
    assert_eq!(result.err(), Some(RowError::MissingColumn { name: "x2".to_string() }));
}

#[test]
fn override_binds_the_field_to_the_named_column() {
    let df = DataFrame::new(vec![
        Column::new("x1".into(), vec![1i32, 2, 3]),
        Column::new("x2".into(), vec![10i32, 20, 30]),
        Column::new("y1".into(), vec![100i32, 200, 300]),
    ])
    .unwrap();

    let with_override: Vec<Row> = df
        .rows_iter_with_columns(&test_struct(), |b| b.column("x1", "y1"))
        .unwrap()
        .collect()
        .into_iter()
        .map(|row| row.unwrap())
        .collect();
    let firsts: Vec<Option<Value>> = with_override.iter().map(|row| row.cells[0].clone()).collect();
    assert_eq!(firsts, vec![Some(Value::I32(100)), Some(Value::I32(200)), Some(Value::I32(300))]);

    let without: Vec<Row> =
        df.rows_iter(&test_struct()).unwrap().collect().into_iter().map(|row| row.unwrap()).collect();
    let firsts: Vec<Option<Value>> = without.iter().map(|row| row.cells[0].clone()).collect();
    assert_eq!(firsts, vec![Some(Value::I32(1)), Some(Value::I32(2)), Some(Value::I32(3))]);
}

#[test]
fn override_of_no_field_changes_nothing() {
    let df = two_columns("x1", "x2");
    let rows = df
        .rows_iter_with_columns(&test_struct(), |b| b.column("unknown", "y1"))
        .unwrap()
        .collect();
    assert_eq!(rows.len(), 3);
    assert_eq!(rows[2], Ok(Row { cells: vec![Some(Value::I32(3)), Some(Value::I32(30))] }));
}

#[test]
fn a_field_set_twice_keeps_the_name_set_last() {
    let columns = ColumnNameBuilder::new().column("x1", "first").column("x2", "other").column("x1", "last").build();
    assert_eq!(columns.get("x1"), Some("last"));
    assert_eq!(columns.get("x2"), Some("other"));
    assert_eq!(columns.get("x3"), None);
}

#[test]
fn an_empty_mapping_sets_no_field() {
    assert_eq!(ColumnNames::new().get("x1"), None);
    assert_eq!(ColumnNameBuilder::new().build().get(""), None);
}

#[test]
fn explicit_mapping_is_used_when_binding() {
    let df = two_columns("left", "right");
    let columns = ColumnNameBuilder::new().column("x2", "left").column("x1", "right").build();
    let rows = test_struct().from_dataframe(&df, &columns).unwrap().collect();
    assert_eq!(rows[0], Ok(Row { cells: vec![Some(Value::I32(10)), Some(Value::I32(1))] }));
}

#[test]
fn declared_column_differs_from_field_name() {
    let df = two_columns("col_x", "col_y");
    let shape = FromDataFrameRow::new()
        .field_in("_x", "col_x", IterFromColumn::mandatory(Target::I32))
        .field_in("_y", "col_y", IterFromColumn::optional(Target::I32));
    assert_eq!(shape.len(), 2);
    let mut rows = df.rows_iter(&shape).unwrap();
    assert_eq!(rows.width(), 2);
    assert_eq!(rows.next(), Some(Ok(Row { cells: vec![Some(Value::I32(1)), Some(Value::I32(10))] })));
}

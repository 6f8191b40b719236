use polars::prelude::Column;
use polars::prelude::DataFrame;
use polars_rows_iter::dataframe_rows_iter_ext::DataframeRowsIterExt;
use polars_rows_iter::dtype::Target;
use polars_rows_iter::from_dataframe_row::FromDataFrameRow;
use polars_rows_iter::iter_from_column::IterFromColumn;
use polars_rows_iter::value::Value;

/// A row of one field `_x`, read from the column `col_x`.
fn data_row_1() -> FromDataFrameRow {
    FromDataFrameRow::new().field_in("_x", "col_x", IterFromColumn::mandatory(Target::I32))
}

#[test]
fn test() {
    let df = DataFrame::new(vec![
        Column::new("col_x".into(), vec![1i32, 2, 3, 4]),
        Column::new("col_y".into(), vec!["a", "b", "c", "d"]),
    ])
    .unwrap();

    println!("{df:?}");

    let mut iter = df.rows_iter(&data_row_1()).unwrap();

    let mut count = 0;
    while let Some(row) = iter.next() {
        let row = row.unwrap();
        println!("{row:?}");
        count += 1;
        assert_eq!(row.cells, vec![Some(Value::I32(count))]);
    }
    assert_eq!(count, 4);
}

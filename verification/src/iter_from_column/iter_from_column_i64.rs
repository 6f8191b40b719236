use vstd::prelude::*;
use polars::prelude::Column;
use crate::cursor::ColumnCursor;
use crate::dtype::ColumnType;
use crate::dtype::Target;
use crate::error::RowError;
use crate::frame::element_type;
use crate::frame::open_datetime;
use crate::frame::open_duration;
use crate::frame::open_i64;
use crate::frame::open_time;
use crate::iter_from_column::finish_open;
use crate::iter_from_column::incompatible;
use crate::iter_from_column::opened;

verus! {

/// A cursor of 64-bit signed integers: over a column of them, or over a
/// time-of-day, date-and-time or duration column, whose raw count is handed
/// out as it is, whatever it counts.
pub fn create_iter<'a>(column: &'a Column) -> (res: Result<ColumnCursor<'a>, RowError>)
    ensures
        opened(res, *column, Target::I64),
{
    let iter = match element_type(column) {
        ColumnType::Int64 => open_i64(column),
        ColumnType::Time => open_time(column),
        ColumnType::Datetime(_) => open_datetime(column),
        ColumnType::Duration(_) => open_duration(column),
        _ => {
            return Err(incompatible(column, Target::I64));
        },
    };
    finish_open(iter, column, Target::I64)
}

} // verus!

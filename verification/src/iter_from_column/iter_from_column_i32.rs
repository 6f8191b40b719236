use vstd::prelude::*;
use polars::prelude::Column;
use crate::cursor::ColumnCursor;
use crate::dtype::ColumnType;
use crate::dtype::Target;
use crate::error::RowError;
use crate::frame::element_type;
use crate::frame::open_date;
use crate::frame::open_i32;
use crate::iter_from_column::finish_open;
use crate::iter_from_column::incompatible;
use crate::iter_from_column::opened;

verus! {

/// A cursor of 32-bit signed integers: over a column of them, or over a date
/// column, whose count of days since 1970-01-01 is handed out as it is.
pub fn create_iter<'a>(column: &'a Column) -> (res: Result<ColumnCursor<'a>, RowError>)
    ensures
        opened(res, *column, Target::I32),
{
    let iter = match element_type(column) {
        ColumnType::Int32 => open_i32(column),
        ColumnType::Date => open_date(column),
        _ => {
            return Err(incompatible(column, Target::I32));
        },
    };
    finish_open(iter, column, Target::I32)
}

} // verus!

use vstd::prelude::*;
use polars::prelude::Column;
use crate::cursor::ColumnCursor;
use crate::dtype::ColumnType;
use crate::dtype::Target;
use crate::error::RowError;
use crate::frame::element_type;
use crate::frame::open_binary;
use crate::frame::open_binary_offset;
use crate::iter_from_column::finish_open;
use crate::iter_from_column::incompatible;
use crate::iter_from_column::opened;

verus! {

/// A cursor of byte blobs, over a column in either of the two binary
/// encodings.
pub fn create_iter<'a>(column: &'a Column) -> (res: Result<ColumnCursor<'a>, RowError>)
    ensures
        opened(res, *column, Target::Bytes),
{
    let iter = match element_type(column) {
        ColumnType::Binary => open_binary(column),
        ColumnType::BinaryOffset => open_binary_offset(column),
        _ => {
            return Err(incompatible(column, Target::Bytes));
        },
    };
    finish_open(iter, column, Target::Bytes)
}

} // verus!

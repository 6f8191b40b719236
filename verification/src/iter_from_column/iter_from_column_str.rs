use vstd::prelude::*;
use polars::prelude::Column;
use crate::cursor::ColumnCursor;
use crate::dtype::ColumnType;
use crate::dtype::Target;
use crate::error::RowError;
use crate::frame::column_type;
use crate::frame::element_type;
use crate::frame::open_categorical;
use crate::frame::open_str;
use crate::iter_from_column::finish_open;
use crate::iter_from_column::incompatible;
use crate::iter_from_column::opened;

verus! {

/// A cursor of text over a plain text column.
fn create_str_iter<'a>(column: &'a Column) -> (res: Result<ColumnCursor<'a>, RowError>)
    requires
        column_type(*column) is String,
    ensures
        opened(res, *column, Target::Str),
{
    finish_open(open_str(column), column, Target::Str)
}

/// A cursor of text over a dictionary-encoded column: each code is handed
/// out as the text it stands for.
fn create_cat_iter<'a>(column: &'a Column) -> (res: Result<ColumnCursor<'a>, RowError>)
    requires
        column_type(*column) is Categorical || column_type(*column) is Enum,
    ensures
        opened(res, *column, Target::Str),
{
    finish_open(open_categorical(column), column, Target::Str)
}

/// A cursor of text borrowed from the table, over a plain text column or a
/// dictionary-encoded one.
pub fn create_iter<'a>(column: &'a Column) -> (res: Result<ColumnCursor<'a>, RowError>)
    ensures
        opened(res, *column, Target::Str),
{
    match element_type(column) {
        ColumnType::String => create_str_iter(column),
        ColumnType::Categorical | ColumnType::Enum => create_cat_iter(column),
        _ => Err(incompatible(column, Target::Str)),
    }
}

} // verus!

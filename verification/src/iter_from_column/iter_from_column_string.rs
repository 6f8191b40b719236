use vstd::prelude::*;
use polars::prelude::Column;
use crate::cursor::ColumnCursor;
use crate::dtype::Target;
use crate::error::RowError;
use crate::error::RowErrorView;
use crate::iter_from_column::iter_from_column_str;
use crate::iter_from_column::incompatible;
use crate::iter_from_column::opened;
use crate::iter_from_column::IterFromColumn;

verus! {

/// A cursor of text to copy, over the columns that borrowed text is read
/// from.
pub fn create_iter<'a>(column: &'a Column) -> (res: Result<ColumnCursor<'a>, RowError>)
    ensures
        opened(res, *column, Target::String),
{
    match iter_from_column_str::create_iter(column) {
        Ok(cursor) => Ok(cursor),
        Err(_) => Err(incompatible(column, Target::String)),
    }
}

/// What an optional owned text holds.
pub open spec fn text_view(text: Option<String>) -> Option<Seq<char>> {
    match text {
        Some(s) => Some(s@),
        None => None,
    }
}

/// The owned text of a mandatory field: a copy of the borrowed text, or the
/// null-value failure naming the column.
pub fn get_value(polars_value: Option<&str>, column_name: &str) -> (res: Result<String, RowError>)
    ensures
        match polars_value {
            Some(text) => res matches Ok(s) && s@ == text@,
            None => res matches Err(e) && e@ == (RowErrorView::UnexpectedNull { column: column_name@ }),
        },
{
    match polars_value {
        Some(text) => Ok(text.to_owned()),
        None => Err(IterFromColumn::unexpected_null_value_error(column_name)),
    }
}

/// The owned text of an optional field: a copy of the borrowed text, or the
/// absent value for a null. It never fails.
pub fn get_optional_value(polars_value: Option<&str>) -> (res: Result<Option<String>, RowError>)
    ensures
        res matches Ok(text) && text_view(text) == match polars_value {
            Some(s) => Some(s@),
            None => None,
        },
{
    match polars_value {
        Some(text) => Ok(Some(text.to_owned())),
        None => Ok(None),
    }
}

} // verus!

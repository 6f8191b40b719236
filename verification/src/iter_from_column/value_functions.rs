use vstd::prelude::*;
use crate::error::outcome_view;
use crate::error::RowError;
use crate::error::RowErrorView;

verus! {

/// The value of a mandatory field: the raw value if there is one, else the
/// null-value failure. The failure names no column, as none is known here.
pub fn mandatory_value<T>(polars_value: Option<T>) -> (res: Result<T, RowError>)
    ensures
        outcome_view(res) == match polars_value {
            Some(value) => Ok::<T, RowErrorView>(value),
            None => Err(RowErrorView::UnexpectedNull { column: Seq::empty() }),
        },
{
    match polars_value {
        Some(value) => Ok(value),
        None => Err(RowError::UnexpectedNull { column: String::new() }),
    }
}

/// The value of an optional field: the raw value as it is, null or not. It
/// never fails.
pub fn optional_value<T>(polars_value: Option<T>) -> (res: Result<Option<T>, RowError>)
    ensures
        res == Ok::<Option<T>, RowError>(polars_value),
{
    Ok(polars_value)
}

} // verus!

use vstd::prelude::*;
use crate::dtype::ColumnType;
use crate::dtype::Target;

verus! {

/// Why a row sequence could not be opened, or why one row could not be built.
#[derive(Clone, Debug, PartialEq, Eq)]
pub enum RowError {
    /// The table has no column of this name.
    MissingColumn { name: String },
    /// The column's element type is no source for the field's target.
    IncompatibleEncoding { column: String, dtype: ColumnType, target: Target },
    /// The column holds a null where the field is mandatory.
    UnexpectedNull { column: String },
    /// The raw count is no calendar instant at the column's time unit.
    OutOfRangeTemporal { value: i64, column: String },
}

/// What a `RowError` holds.
pub enum RowErrorView {
    MissingColumn { name: Seq<char> },
    IncompatibleEncoding { column: Seq<char>, dtype: ColumnType, target: Target },
    UnexpectedNull { column: Seq<char> },
    OutOfRangeTemporal { value: i64, column: Seq<char> },
}

impl View for RowError {
    type V = RowErrorView;

    open spec fn view(&self) -> RowErrorView {
        match *self {
            RowError::MissingColumn { name } => RowErrorView::MissingColumn { name: name@ },
            RowError::IncompatibleEncoding { column, dtype, target } => RowErrorView::IncompatibleEncoding {
                column: column@,
                dtype,
                target,
            },
            RowError::UnexpectedNull { column } => RowErrorView::UnexpectedNull { column: column@ },
            RowError::OutOfRangeTemporal { value, column } => RowErrorView::OutOfRangeTemporal {
                value,
                column: column@,
            },
        }
    }
}

/// An outcome with its error, if it is one, as what the error holds.
pub open spec fn outcome_view<T>(res: Result<T, RowError>) -> Result<T, RowErrorView> {
    match res {
        Ok(v) => Ok(v),
        Err(e) => Err(e@),
    }
}

} // verus!

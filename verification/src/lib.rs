//! Typed, per-row access to the columns of a polars `DataFrame`.
//!
//! A row is declared as a list of fields (`FromDataFrameRow`). Each field
//! has a conversion strategy (`IterFromColumn`): the scalar type that its
//! column is read as, and whether a null is the absent value or a failure.
//! `DataframeRowsIterExt::rows_iter` binds every field to its column at
//! once, failing before any row is read if a column is missing or of an
//! incompatible element type, and returns a `RowsIter`. That yields one
//! outcome per row position, in row order: the row, or the failure of the
//! first field in declared order that does not convert.
//!
//! The table stays column-major and is only borrowed. What it does is taken
//! on trust, function by function, in `frame`; what `chrono` does, in
//! `iter_from_column::iter_from_column_chrono::datetime`. Everything else is
//! proved: `laws` states what holds of every table and every row
//! declaration.

pub mod column_names;
pub mod cursor;
pub mod dataframe_rows_iter_ext;
pub mod dtype;
pub mod error;
pub mod frame;
pub mod from_dataframe_row;
pub mod iter_from_column;
pub mod laws;
pub mod rows_iter;
pub mod value;

pub use crate::column_names::ColumnNameBuilder;
pub use crate::column_names::ColumnNames;
pub use crate::cursor::ColumnCursor;
pub use crate::dataframe_rows_iter_ext::DataframeRowsIterExt;
pub use crate::dtype::ColumnType;
pub use crate::dtype::Target;
pub use crate::dtype::TimeUnit;
pub use crate::error::RowError;
pub use crate::from_dataframe_row::FromDataFrameRow;
pub use crate::iter_from_column::IterFromColumn;
pub use crate::rows_iter::RowsIter;
pub use crate::value::RawValue;
pub use crate::value::Row;
pub use crate::value::Timestamp;
pub use crate::value::Value;

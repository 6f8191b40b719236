pub mod iter_from_column_binary;
pub mod iter_from_column_chrono;
pub mod iter_from_column_i32;
pub mod iter_from_column_i64;
pub mod iter_from_column_primitives;
pub mod iter_from_column_str;
pub mod iter_from_column_string;
pub mod value_functions;

use vstd::prelude::*;
use polars::prelude::Column;
use polars::prelude::PolarsError;
use crate::cursor::ColumnCursor;
use crate::dtype::ColumnType;
use crate::dtype::Target;
use crate::error::RowError;
use crate::error::RowErrorView;
use crate::frame::column_label;
use crate::frame::column_name;
use crate::frame::column_type;
use crate::frame::column_values;
use crate::frame::cursor_rest;
use crate::frame::element_type;
use crate::frame::RawCursor;
use crate::iter_from_column::iter_from_column_chrono::datetime;
use crate::iter_from_column::iter_from_column_chrono::datetime::create_datetime_spec;
use crate::value::all_of_kind;
use crate::value::cell_view;
use crate::value::raw_view;
use crate::value::RawValue;
use crate::value::RawView;
use crate::value::Value;
use crate::value::ValueView;

verus! {

/// One conversion strategy: how a column is opened for a target, and how one
/// raw value becomes the member of a row. "T" and "optional T" are two
/// strategies that open a column alike and differ in what a null becomes.
#[derive(Clone, Copy, Debug, PartialEq, Eq, Structural)]
pub struct IterFromColumn {
    pub target: Target,
    pub optional: bool,
}

/// What opening `column` for `target` comes to: a cursor at the start of the
/// column's values, all in the target's raw representation, exactly when the
/// target accepts the column's element type; else the incompatible-type
/// failure naming the column, its element type and the target.
pub open spec fn opened(res: Result<ColumnCursor, RowError>, column: Column, target: Target) -> bool {
    match res {
        Ok(cursor) => {
            &&& target.accepts(column_type(column))
            &&& cursor.rest() == column_values(column)
            &&& all_of_kind(column_values(column), target.raw_kind())
        },
        Err(e) => {
            &&& !target.accepts(column_type(column))
            &&& e@ == RowErrorView::IncompatibleEncoding {
                column: column_name(column),
                dtype: column_type(column),
                target,
            }
        },
    }
}

/// The member that a present raw value becomes for `target`, or the failure:
/// a value in another representation than the target's is incompatible.
pub open spec fn convert_spec(target: Target, raw: RawView, column_name: Seq<char>, dtype: ColumnType) -> Result<
    ValueView,
    RowErrorView,
> {
    match (target, raw) {
        (Target::Bool, RawView::Bool(v)) => Ok(ValueView::Bool(v)),
        (Target::I8, RawView::I8(v)) => Ok(ValueView::I8(v)),
        (Target::I16, RawView::I16(v)) => Ok(ValueView::I16(v)),
        (Target::I32, RawView::I32(v)) => Ok(ValueView::I32(v)),
        (Target::I64, RawView::I64(v)) => Ok(ValueView::I64(v)),
        (Target::U8, RawView::U8(v)) => Ok(ValueView::U8(v)),
        (Target::U16, RawView::U16(v)) => Ok(ValueView::U16(v)),
        (Target::U32, RawView::U32(v)) => Ok(ValueView::U32(v)),
        (Target::U64, RawView::U64(v)) => Ok(ValueView::U64(v)),
        (Target::Str, RawView::Str(v)) => Ok(ValueView::Str(v)),
        (Target::String, RawView::Str(v)) => Ok(ValueView::String(v)),
        (Target::Bytes, RawView::Bytes(v)) => Ok(ValueView::Bytes(v)),
        (Target::DateTime, RawView::I64(v)) => match create_datetime_spec(v, column_name, dtype) {
            Ok(t) => Ok(ValueView::DateTime(t)),
            Err(e) => Err(e),
        },
        _ => Err(RowErrorView::IncompatibleEncoding { column: column_name, dtype, target }),
    }
}

/// The member of a row that one optional raw value becomes. A null is the
/// absent value of an optional field and the null-value failure of a
/// mandatory one; a present value is converted.
pub open spec fn get_value_spec(
    strategy: IterFromColumn,
    raw: Option<RawView>,
    column_name: Seq<char>,
    dtype: ColumnType,
) -> Result<Option<ValueView>, RowErrorView> {
    match raw {
        None => if strategy.optional {
            Ok(None)
        } else {
            Err(RowErrorView::UnexpectedNull { column: column_name })
        },
        Some(v) => match convert_spec(strategy.target, v, column_name, dtype) {
            Ok(value) => Ok(Some(value)),
            Err(e) => Err(e),
        },
    }
}

/// What a member or a failure holds.
pub open spec fn member_view(res: Result<Option<Value>, RowError>) -> Result<Option<ValueView>, RowErrorView> {
    match res {
        Ok(cell) => Ok(cell_view(cell)),
        Err(e) => Err(e@),
    }
}

/// The incompatible-type failure for `column` and `target`.
pub(crate) fn incompatible(column: &Column, target: Target) -> (e: RowError)
    ensures
        e@ == (RowErrorView::IncompatibleEncoding {
            column: column_name(*column),
            dtype: column_type(*column),
            target,
        }),
{
    RowError::IncompatibleEncoding { column: column_label(column), dtype: element_type(column), target }
}

/// Turns what the table answered to an attempt to open `column` into the
/// cursor, or into the incompatible-type failure.
pub(crate) fn finish_open<'a>(raw: Result<RawCursor<'a>, PolarsError>, column: &'a Column, target: Target) -> (res:
    Result<ColumnCursor<'a>, RowError>)
    requires
        raw is Ok <==> target.accepts(column_type(*column)),
        raw matches Ok(cursor) ==> cursor_rest(cursor) == column_values(*column) && all_of_kind(
            column_values(*column),
            target.raw_kind(),
        ),
    ensures
        opened(res, *column, target),
{
    match raw {
        Ok(cursor) => Ok(ColumnCursor::new(cursor)),
        Err(_) => Err(incompatible(column, target)),
    }
}

/// Converts one present raw value for `target`.
fn convert<'a>(target: Target, raw: RawValue<'a>, column_name: &str, dtype: ColumnType) -> (res: Result<
    Value<'a>,
    RowError,
>)
    ensures
        match res {
            Ok(v) => convert_spec(target, raw@, column_name@, dtype) == Ok::<ValueView, RowErrorView>(v@),
            Err(e) => convert_spec(target, raw@, column_name@, dtype) == Err::<ValueView, RowErrorView>(e@),
        },
{
    match (target, raw) {
        (Target::Bool, RawValue::Bool(v)) => Ok(Value::Bool(v)),
        (Target::I8, RawValue::I8(v)) => Ok(Value::I8(v)),
        (Target::I16, RawValue::I16(v)) => Ok(Value::I16(v)),
        (Target::I32, RawValue::I32(v)) => Ok(Value::I32(v)),
        (Target::I64, RawValue::I64(v)) => Ok(Value::I64(v)),
        (Target::U8, RawValue::U8(v)) => Ok(Value::U8(v)),
        (Target::U16, RawValue::U16(v)) => Ok(Value::U16(v)),
        (Target::U32, RawValue::U32(v)) => Ok(Value::U32(v)),
        (Target::U64, RawValue::U64(v)) => Ok(Value::U64(v)),
        (Target::Str, RawValue::Str(v)) => Ok(Value::Str(v)),
        (Target::String, RawValue::Str(v)) => Ok(Value::String(v.to_owned())),
        (Target::Bytes, RawValue::Bytes(v)) => Ok(Value::Bytes(v)),
        (Target::DateTime, RawValue::I64(v)) => match datetime::create_datetime(v, column_name, dtype) {
            Ok(t) => Ok(Value::DateTime(t)),
            Err(e) => Err(e),
        },
        _ => Err(RowError::IncompatibleEncoding { column: column_name.to_owned(), dtype, target }),
    }
}

impl IterFromColumn {
    /// The strategy of a mandatory field of type `target`.
    pub fn mandatory(target: Target) -> (strategy: Self)
        ensures
            strategy == (IterFromColumn { target, optional: false }),
    {
        IterFromColumn { target, optional: false }
    }

    /// The strategy of an optional field of type `target`.
    pub fn optional(target: Target) -> (strategy: Self)
        ensures
            strategy == (IterFromColumn { target, optional: true }),
    {
        IterFromColumn { target, optional: true }
    }

    /// Opens a cursor over `column` for this strategy's target. It fails,
    /// before any value is read, where the target does not accept the
    /// column's element type.
    pub fn create_iter<'a>(&self, column: &'a Column) -> (res: Result<ColumnCursor<'a>, RowError>)
        ensures
            opened(res, *column, self.target),
    {
        match self.target {
            Target::Bool => iter_from_column_primitives::create_bool_iter(column),
            Target::I8 => iter_from_column_primitives::create_i8_iter(column),
            Target::I16 => iter_from_column_primitives::create_i16_iter(column),
            Target::I32 => iter_from_column_i32::create_iter(column),
            Target::I64 => iter_from_column_i64::create_iter(column),
            Target::U8 => iter_from_column_primitives::create_u8_iter(column),
            Target::U16 => iter_from_column_primitives::create_u16_iter(column),
            Target::U32 => iter_from_column_primitives::create_u32_iter(column),
            Target::U64 => iter_from_column_primitives::create_u64_iter(column),
            Target::Str => iter_from_column_str::create_iter(column),
            Target::String => iter_from_column_string::create_iter(column),
            Target::Bytes => iter_from_column_binary::create_iter(column),
            Target::DateTime => datetime::create_datetime_iter(column),
        }
    }

    /// Converts one optional raw value, read from the column `column_name`
    /// of element type `dtype`, into the member of a row.
    pub fn get_value<'a>(
        &self,
        polars_value: Option<RawValue<'a>>,
        column_name: &str,
        dtype: ColumnType,
    ) -> (res: Result<Option<Value<'a>>, RowError>)
        ensures
            member_view(res) == get_value_spec(*self, raw_view(polars_value), column_name@, dtype),
    {
        match polars_value {
            None => if self.optional {
                Ok(None)
            } else {
                Err(Self::unexpected_null_value_error(column_name))
            },
            Some(raw) => match convert(self.target, raw, column_name, dtype) {
                Ok(value) => Ok(Some(value)),
                Err(e) => Err(e),
            },
        }
    }

    /// The failure for a null in the mandatory column `column_name`.
    pub fn unexpected_null_value_error(column_name: &str) -> (e: RowError)
        ensures
            e@ == (RowErrorView::UnexpectedNull { column: column_name@ }),
    {
        RowError::UnexpectedNull { column: column_name.to_owned() }
    }
}

} // verus!

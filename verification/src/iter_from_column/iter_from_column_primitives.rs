use vstd::prelude::*;
use polars::prelude::Column;
use crate::cursor::ColumnCursor;
use crate::dtype::Target;
use crate::error::RowError;
use crate::frame::open_bool;
use crate::frame::open_i16;
use crate::frame::open_i8;
use crate::frame::open_u16;
use crate::frame::open_u32;
use crate::frame::open_u64;
use crate::frame::open_u8;
use crate::iter_from_column::finish_open;
use crate::iter_from_column::opened;

verus! {

/// A cursor over a boolean column.
pub fn create_bool_iter<'a>(column: &'a Column) -> (res: Result<ColumnCursor<'a>, RowError>)
    ensures
        opened(res, *column, Target::Bool),
{
    finish_open(open_bool(column), column, Target::Bool)
}

/// A cursor over a column of 8-bit signed integers.
pub fn create_i8_iter<'a>(column: &'a Column) -> (res: Result<ColumnCursor<'a>, RowError>)
    ensures
        opened(res, *column, Target::I8),
{
    finish_open(open_i8(column), column, Target::I8)
}

/// A cursor over a column of 16-bit signed integers.
pub fn create_i16_iter<'a>(column: &'a Column) -> (res: Result<ColumnCursor<'a>, RowError>)
    ensures
        opened(res, *column, Target::I16),
{
    finish_open(open_i16(column), column, Target::I16)
}

/// A cursor over a column of 8-bit unsigned integers.
pub fn create_u8_iter<'a>(column: &'a Column) -> (res: Result<ColumnCursor<'a>, RowError>)
    ensures
        opened(res, *column, Target::U8),
{
    finish_open(open_u8(column), column, Target::U8)
}

/// A cursor over a column of 16-bit unsigned integers.
pub fn create_u16_iter<'a>(column: &'a Column) -> (res: Result<ColumnCursor<'a>, RowError>)
    ensures
        opened(res, *column, Target::U16),
{
    finish_open(open_u16(column), column, Target::U16)
}

/// A cursor over a column of 32-bit unsigned integers.
pub fn create_u32_iter<'a>(column: &'a Column) -> (res: Result<ColumnCursor<'a>, RowError>)
    ensures
        opened(res, *column, Target::U32),
{
    finish_open(open_u32(column), column, Target::U32)
}

/// A cursor over a column of 64-bit unsigned integers.
pub fn create_u64_iter<'a>(column: &'a Column) -> (res: Result<ColumnCursor<'a>, RowError>)
    ensures
        opened(res, *column, Target::U64),
{
    finish_open(open_u64(column), column, Target::U64)
}

} // verus!

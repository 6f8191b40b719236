use vstd::prelude::*;
use polars::prelude::Column;
use polars::prelude::DataFrame;
use polars::prelude::DataType;
use polars::prelude::PolarsError;
use polars::prelude::TimeUnit as PolarsTimeUnit;
use crate::dtype::ColumnType;
use crate::dtype::RawKind;
use crate::dtype::TimeUnit;
use crate::value::all_of_kind;
use crate::value::raw_bool;
use crate::value::raw_bytes;
use crate::value::raw_i16;
use crate::value::raw_i32;
use crate::value::raw_i64;
use crate::value::raw_i8;
use crate::value::raw_str;
use crate::value::raw_u16;
use crate::value::raw_u32;
use crate::value::raw_u64;
use crate::value::raw_u8;
use crate::value::raw_view;
use crate::value::RawValue;
use crate::value::RawView;

verus! {

/// The table, `polars::prelude::DataFrame`. Nothing inside it is seen here:
/// what it holds is `frame_columns`.
#[verifier::external_type_specification]
#[verifier::external_body]
pub struct ExDataFrame(DataFrame);

/// One column of a table, `polars::prelude::Column`. Nothing inside it is
/// seen here: what it holds is `column_name`, `column_type` and
/// `column_values`.
#[verifier::external_type_specification]
#[verifier::external_body]
pub struct ExColumn(Column);

/// The table's own error, `polars::prelude::PolarsError`. It is only taken
/// and dropped: every failure of this library is a `RowError`.
#[verifier::external_type_specification]
#[verifier::external_body]
pub struct ExPolarsError(PolarsError);

/// The columns of a table, each under the name by which `DataFrame::column`
/// finds it.
pub uninterp spec fn frame_columns(df: DataFrame) -> Map<Seq<char>, Column>;

/// The name of a column, as `Column::name` gives it.
pub uninterp spec fn column_name(column: Column) -> Seq<char>;

/// The declared element type of a column, as `Column::dtype` gives it.
/// Every element type that `ColumnType` does not list is `Other`.
pub uninterp spec fn column_type(column: Column) -> ColumnType;

/// The values of a column in row order, as the table's iterator over the
/// column yields them; `None` is a null.
pub uninterp spec fn column_values(column: Column) -> Seq<Option<RawView>>;

/// The values that a cursor has yet to hand out, in order.
pub uninterp spec fn cursor_rest(cursor: RawCursor) -> Seq<Option<RawView>>;

/// A single-pass cursor over one column: the table's own iterator over the
/// column's values, each handed out as a `RawValue`. The iterator is a
/// boxed trait object, so nothing inside the cursor is seen here: what it
/// holds is `cursor_rest`.
#[verifier::external_body]
pub struct RawCursor<'a> {
    inner: Box<dyn Iterator<Item = Option<RawValue<'a>>> + 'a>,
}

/// `DataFrame::column`: looks a column up by name. The column is found
/// exactly when the table holds one of that name, and is then that column;
/// else the table answers with its column-not-found error.
#[verifier::external_body]
pub(crate) fn frame_column<'a>(df: &'a DataFrame, name: &str) -> (res: Result<&'a Column, PolarsError>)
    ensures
        res is Ok <==> frame_columns(*df).dom().contains(name@),
        res matches Ok(column) ==> *column == frame_columns(*df)[name@],
{
    df.column(name)
}

/// `Column::name`: the column's name, copied.
#[verifier::external_body]
pub(crate) fn column_label(column: &Column) -> (name: String)
    ensures
        name@ == column_name(*column),
{
    column.name().to_string()
}

/// `Column::dtype`, read for the boolean and number element types: the
/// column's element type if it is one of them, else nothing.
#[verifier::external_body]
pub(crate) fn numeric_type(column: &Column) -> (t: Option<ColumnType>)
    ensures
        t == (if column_type(*column).is_numeric() { Some(column_type(*column)) } else { None }),
{
    match column.dtype() {
        DataType::Boolean => Some(ColumnType::Boolean),
        DataType::UInt8 => Some(ColumnType::UInt8),
        DataType::UInt16 => Some(ColumnType::UInt16),
        DataType::UInt32 => Some(ColumnType::UInt32),
        DataType::UInt64 => Some(ColumnType::UInt64),
        DataType::Int8 => Some(ColumnType::Int8),
        DataType::Int16 => Some(ColumnType::Int16),
        DataType::Int32 => Some(ColumnType::Int32),
        DataType::Int64 => Some(ColumnType::Int64),
        DataType::Float32 => Some(ColumnType::Float32),
        DataType::Float64 => Some(ColumnType::Float64),
        _ => None,
    }
}

/// `Column::dtype`, read for the text and byte-blob element types: the
/// column's element type if it is one of them, else nothing. The dictionary
/// of a dictionary-encoded type is not looked at.
#[verifier::external_body]
pub(crate) fn text_or_binary_type(column: &Column) -> (t: Option<ColumnType>)
    ensures
        t == (if column_type(*column).is_text_or_binary() { Some(column_type(*column)) } else { None }),
{
    match column.dtype() {
        DataType::String => Some(ColumnType::String),
        DataType::Categorical(_, _) => Some(ColumnType::Categorical),
        DataType::Enum(_, _) => Some(ColumnType::Enum),
        DataType::Binary => Some(ColumnType::Binary),
        DataType::BinaryOffset => Some(ColumnType::BinaryOffset),
        _ => None,
    }
}

/// `Column::dtype`, read for the time-related element types: the column's
/// element type if it is one of them, with its time unit if it has one,
/// else nothing. A time zone is not looked at.
#[verifier::external_body]
pub(crate) fn temporal_type(column: &Column) -> (t: Option<ColumnType>)
    ensures
        t == (if column_type(*column).is_temporal() { Some(column_type(*column)) } else { None }),
{
    match column.dtype() {
        DataType::Date => Some(ColumnType::Date),
        DataType::Time => Some(ColumnType::Time),
        DataType::Datetime(PolarsTimeUnit::Nanoseconds, _) => Some(ColumnType::Datetime(TimeUnit::Nanoseconds)),
        DataType::Datetime(PolarsTimeUnit::Microseconds, _) => Some(ColumnType::Datetime(TimeUnit::Microseconds)),
        DataType::Datetime(PolarsTimeUnit::Milliseconds, _) => Some(ColumnType::Datetime(TimeUnit::Milliseconds)),
        DataType::Duration(PolarsTimeUnit::Nanoseconds) => Some(ColumnType::Duration(TimeUnit::Nanoseconds)),
        DataType::Duration(PolarsTimeUnit::Microseconds) => Some(ColumnType::Duration(TimeUnit::Microseconds)),
        DataType::Duration(PolarsTimeUnit::Milliseconds) => Some(ColumnType::Duration(TimeUnit::Milliseconds)),
        _ => None,
    }
}

/// The declared element type of a column.
pub fn element_type(column: &Column) -> (t: ColumnType)
    ensures
        t == column_type(*column),
{
    match numeric_type(column) {
        Some(t) => t,
        None => match text_or_binary_type(column) {
            Some(t) => t,
            None => match temporal_type(column) {
                Some(t) => t,
                None => ColumnType::Other,
            },
        },
    }
}

/// `Column::bool` and the iterator over what it returns: a cursor over a
/// boolean column. It opens exactly on a column of that element type, and
/// then hands out the column's values in row order, each in one raw
/// representation.
#[verifier::external_body]
pub(crate) fn open_bool<'a>(column: &'a Column) -> (res: Result<RawCursor<'a>, PolarsError>)
    ensures
        res is Ok <==> column_type(*column) is Boolean,
        res matches Ok(cursor) ==> cursor_rest(cursor) == column_values(*column) && all_of_kind(
            column_values(*column),
            RawKind::Bool,
        ),
{
    Ok(RawCursor { inner: Box::new(column.bool()?.iter().map(raw_bool)) })
}

/// `Column::i8` and the iterator over what it returns: a cursor over a 8-bit
/// signed column. It opens exactly on a column of that element type, and then
/// hands out the column's values in row order, each in one raw
/// representation.
#[verifier::external_body]
pub(crate) fn open_i8<'a>(column: &'a Column) -> (res: Result<RawCursor<'a>, PolarsError>)
    ensures
        res is Ok <==> column_type(*column) is Int8,
        res matches Ok(cursor) ==> cursor_rest(cursor) == column_values(*column) && all_of_kind(
            column_values(*column),
            RawKind::I8,
        ),
{
    Ok(RawCursor { inner: Box::new(column.i8()?.iter().map(raw_i8)) })
}

/// `Column::i16` and the iterator over what it returns: a cursor over a
/// 16-bit signed column. It opens exactly on a column of that element type,
/// and then hands out the column's values in row order, each in one raw
/// representation.
#[verifier::external_body]
pub(crate) fn open_i16<'a>(column: &'a Column) -> (res: Result<RawCursor<'a>, PolarsError>)
    ensures
        res is Ok <==> column_type(*column) is Int16,
        res matches Ok(cursor) ==> cursor_rest(cursor) == column_values(*column) && all_of_kind(
            column_values(*column),
            RawKind::I16,
        ),
{
    Ok(RawCursor { inner: Box::new(column.i16()?.iter().map(raw_i16)) })
}

/// `Column::i32` and the iterator over what it returns: a cursor over a
/// 32-bit signed column. It opens exactly on a column of that element type,
/// and then hands out the column's values in row order, each in one raw
/// representation.
#[verifier::external_body]
pub(crate) fn open_i32<'a>(column: &'a Column) -> (res: Result<RawCursor<'a>, PolarsError>)
    ensures
        res is Ok <==> column_type(*column) is Int32,
        res matches Ok(cursor) ==> cursor_rest(cursor) == column_values(*column) && all_of_kind(
            column_values(*column),
            RawKind::I32,
        ),
{
    Ok(RawCursor { inner: Box::new(column.i32()?.into_iter().map(raw_i32)) })
}

/// `Column::date` and the iterator over what it returns: a cursor over a date
/// column. It opens exactly on a column of that element type, and then hands
/// out the column's values in row order, each in one raw representation.
#[verifier::external_body]
pub(crate) fn open_date<'a>(column: &'a Column) -> (res: Result<RawCursor<'a>, PolarsError>)
    ensures
        res is Ok <==> column_type(*column) is Date,
        res matches Ok(cursor) ==> cursor_rest(cursor) == column_values(*column) && all_of_kind(
            column_values(*column),
            RawKind::I32,
        ),
{
    Ok(RawCursor { inner: Box::new(column.date()?.into_iter().map(raw_i32)) })
}

/// `Column::i64` and the iterator over what it returns: a cursor over a
/// 64-bit signed column. It opens exactly on a column of that element type,
/// and then hands out the column's values in row order, each in one raw
/// representation.
#[verifier::external_body]
pub(crate) fn open_i64<'a>(column: &'a Column) -> (res: Result<RawCursor<'a>, PolarsError>)
    ensures
        res is Ok <==> column_type(*column) is Int64,
        res matches Ok(cursor) ==> cursor_rest(cursor) == column_values(*column) && all_of_kind(
            column_values(*column),
            RawKind::I64,
        ),
{
    Ok(RawCursor { inner: Box::new(column.i64()?.iter().map(raw_i64)) })
}

/// `Series::time` and the iterator over what it returns: a cursor over a
/// time-of-day column. It opens exactly on a column of that element type, and
/// then hands out the column's values in row order, each in one raw
/// representation.
#[verifier::external_body]
pub(crate) fn open_time<'a>(column: &'a Column) -> (res: Result<RawCursor<'a>, PolarsError>)
    ensures
        res is Ok <==> column_type(*column) is Time,
        res matches Ok(cursor) ==> cursor_rest(cursor) == column_values(*column) && all_of_kind(
            column_values(*column),
            RawKind::I64,
        ),
{
    Ok(RawCursor { inner: Box::new(column.as_materialized_series().time()?.iter().map(raw_i64)) })
}

/// `Column::datetime` and the iterator over what it returns: a cursor over a
/// date-and-time column. It opens exactly on a column of that element type,
/// and then hands out the column's values in row order, each in one raw
/// representation.
#[verifier::external_body]
pub(crate) fn open_datetime<'a>(column: &'a Column) -> (res: Result<RawCursor<'a>, PolarsError>)
    ensures
        res is Ok <==> column_type(*column) is Datetime,
        res matches Ok(cursor) ==> cursor_rest(cursor) == column_values(*column) && all_of_kind(
            column_values(*column),
            RawKind::I64,
        ),
{
    Ok(RawCursor { inner: Box::new(column.datetime()?.iter().map(raw_i64)) })
}

/// `Column::duration` and the iterator over what it returns: a cursor over a
/// duration column. It opens exactly on a column of that element type, and
/// then hands out the column's values in row order, each in one raw
/// representation.
#[verifier::external_body]
pub(crate) fn open_duration<'a>(column: &'a Column) -> (res: Result<RawCursor<'a>, PolarsError>)
    ensures
        res is Ok <==> column_type(*column) is Duration,
        res matches Ok(cursor) ==> cursor_rest(cursor) == column_values(*column) && all_of_kind(
            column_values(*column),
            RawKind::I64,
        ),
{
    Ok(RawCursor { inner: Box::new(column.duration()?.iter().map(raw_i64)) })
}

/// `Column::u8` and the iterator over what it returns: a cursor over a 8-bit
/// unsigned column. It opens exactly on a column of that element type, and
/// then hands out the column's values in row order, each in one raw
/// representation.
#[verifier::external_body]
pub(crate) fn open_u8<'a>(column: &'a Column) -> (res: Result<RawCursor<'a>, PolarsError>)
    ensures
        res is Ok <==> column_type(*column) is UInt8,
        res matches Ok(cursor) ==> cursor_rest(cursor) == column_values(*column) && all_of_kind(
            column_values(*column),
            RawKind::U8,
        ),
{
    Ok(RawCursor { inner: Box::new(column.u8()?.iter().map(raw_u8)) })
}

/// `Column::u16` and the iterator over what it returns: a cursor over a
/// 16-bit unsigned column. It opens exactly on a column of that element type,
/// and then hands out the column's values in row order, each in one raw
/// representation.
#[verifier::external_body]
pub(crate) fn open_u16<'a>(column: &'a Column) -> (res: Result<RawCursor<'a>, PolarsError>)
    ensures
        res is Ok <==> column_type(*column) is UInt16,
        res matches Ok(cursor) ==> cursor_rest(cursor) == column_values(*column) && all_of_kind(
            column_values(*column),
            RawKind::U16,
        ),
{
    Ok(RawCursor { inner: Box::new(column.u16()?.iter().map(raw_u16)) })
}

/// `Column::u32` and the iterator over what it returns: a cursor over a
/// 32-bit unsigned column. It opens exactly on a column of that element type,
/// and then hands out the column's values in row order, each in one raw
/// representation.
#[verifier::external_body]
pub(crate) fn open_u32<'a>(column: &'a Column) -> (res: Result<RawCursor<'a>, PolarsError>)
    ensures
        res is Ok <==> column_type(*column) is UInt32,
        res matches Ok(cursor) ==> cursor_rest(cursor) == column_values(*column) && all_of_kind(
            column_values(*column),
            RawKind::U32,
        ),
{
    Ok(RawCursor { inner: Box::new(column.u32()?.iter().map(raw_u32)) })
}

/// `Column::u64` and the iterator over what it returns: a cursor over a
/// 64-bit unsigned column. It opens exactly on a column of that element type,
/// and then hands out the column's values in row order, each in one raw
/// representation.
#[verifier::external_body]
pub(crate) fn open_u64<'a>(column: &'a Column) -> (res: Result<RawCursor<'a>, PolarsError>)
    ensures
        res is Ok <==> column_type(*column) is UInt64,
        res matches Ok(cursor) ==> cursor_rest(cursor) == column_values(*column) && all_of_kind(
            column_values(*column),
            RawKind::U64,
        ),
{
    Ok(RawCursor { inner: Box::new(column.u64()?.iter().map(raw_u64)) })
}

/// `Column::str` and the iterator over what it returns: a cursor over a plain
/// text column. It opens exactly on a column of that element type, and then
/// hands out the column's values in row order, each in one raw
/// representation.
#[verifier::external_body]
pub(crate) fn open_str<'a>(column: &'a Column) -> (res: Result<RawCursor<'a>, PolarsError>)
    ensures
        res is Ok <==> column_type(*column) is String,
        res matches Ok(cursor) ==> cursor_rest(cursor) == column_values(*column) && all_of_kind(
            column_values(*column),
            RawKind::Str,
        ),
{
    Ok(RawCursor { inner: Box::new(column.str()?.iter().map(raw_str)) })
}

/// `Column::categorical` and `CategoricalChunked::iter_str`: a cursor over a
/// dictionary-encoded text column. It opens exactly on a column of that
/// element type, and then hands out the column's values in row order, each in
/// one raw representation.
#[verifier::external_body]
pub(crate) fn open_categorical<'a>(column: &'a Column) -> (res: Result<RawCursor<'a>, PolarsError>)
    ensures
        res is Ok <==> column_type(*column) is Categorical || column_type(*column) is Enum,
        res matches Ok(cursor) ==> cursor_rest(cursor) == column_values(*column) && all_of_kind(
            column_values(*column),
            RawKind::Str,
        ),
{
    Ok(RawCursor { inner: Box::new(column.categorical()?.iter_str().map(raw_str)) })
}

/// `Column::binary` and the iterator over what it returns: a cursor over a
/// byte-blob column. It opens exactly on a column of that element type, and
/// then hands out the column's values in row order, each in one raw
/// representation.
#[verifier::external_body]
pub(crate) fn open_binary<'a>(column: &'a Column) -> (res: Result<RawCursor<'a>, PolarsError>)
    ensures
        res is Ok <==> column_type(*column) is Binary,
        res matches Ok(cursor) ==> cursor_rest(cursor) == column_values(*column) && all_of_kind(
            column_values(*column),
            RawKind::Bytes,
        ),
{
    Ok(RawCursor { inner: Box::new(column.binary()?.iter().map(raw_bytes)) })
}

/// `Column::binary_offset` and the iterator over what it returns: a cursor
/// over an offset-encoded byte-blob column. It opens exactly on a column of
/// that element type, and then hands out the column's values in row order,
/// each in one raw representation.
#[verifier::external_body]
pub(crate) fn open_binary_offset<'a>(column: &'a Column) -> (res: Result<RawCursor<'a>, PolarsError>)
    ensures
        res is Ok <==> column_type(*column) is BinaryOffset,
        res matches Ok(cursor) ==> cursor_rest(cursor) == column_values(*column) && all_of_kind(
            column_values(*column),
            RawKind::Bytes,
        ),
{
    Ok(RawCursor { inner: Box::new(column.binary_offset()?.iter().map(raw_bytes)) })
}

/// `Iterator::next` on the table's iterator: hands out the next value and
/// moves past it while there is one, and hands out nothing when there is
/// none. Nothing is claimed of a cursor after it has handed out nothing.
#[verifier::external_body]
pub(crate) fn cursor_next<'a>(cursor: &mut RawCursor<'a>) -> (item: Option<Option<RawValue<'a>>>)
    ensures
        cursor_rest(*old(cursor)).len() == 0 ==> item is None,
        cursor_rest(*old(cursor)).len() > 0 ==> item is Some,
        item matches Some(raw) ==> raw_view(raw) == cursor_rest(*old(cursor))[0],
        item is Some ==> cursor_rest(*final(cursor)) == cursor_rest(*old(cursor)).skip(1),
{
    cursor.inner.next()
}

} // verus!

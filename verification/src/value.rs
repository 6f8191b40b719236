use vstd::prelude::*;
use crate::dtype::RawKind;

verus! {

/// An instant in UTC: whole seconds since 1970-01-01 00:00:00, and the
/// nanoseconds into that second.
#[derive(Clone, Copy, Debug, PartialEq, Eq, Structural)]
pub struct Timestamp {
    pub secs: i64,
    pub nanos: u32,
}

/// One value as a cursor reads it from a column, before conversion. Text and
/// bytes are borrowed from the table.
#[derive(Clone, Copy, Debug, PartialEq)]
pub enum RawValue<'a> {
    Bool(bool),
    I8(i8),
    I16(i16),
    I32(i32),
    I64(i64),
    U8(u8),
    U16(u16),
    U32(u32),
    U64(u64),
    Str(&'a str),
    Bytes(&'a [u8]),
}

/// What a `RawValue` holds.
pub enum RawView {
    Bool(bool),
    I8(i8),
    I16(i16),
    I32(i32),
    I64(i64),
    U8(u8),
    U16(u16),
    U32(u32),
    U64(u64),
    Str(Seq<char>),
    Bytes(Seq<u8>),
}

impl RawView {
    pub open spec fn kind(self) -> RawKind {
        match self {
            RawView::Bool(_) => RawKind::Bool,
            RawView::I8(_) => RawKind::I8,
            RawView::I16(_) => RawKind::I16,
            RawView::I32(_) => RawKind::I32,
            RawView::I64(_) => RawKind::I64,
            RawView::U8(_) => RawKind::U8,
            RawView::U16(_) => RawKind::U16,
            RawView::U32(_) => RawKind::U32,
            RawView::U64(_) => RawKind::U64,
            RawView::Str(_) => RawKind::Str,
            RawView::Bytes(_) => RawKind::Bytes,
        }
    }
}

impl<'a> View for RawValue<'a> {
    type V = RawView;

    open spec fn view(&self) -> RawView {
        match *self {
            RawValue::Bool(v) => RawView::Bool(v),
            RawValue::I8(v) => RawView::I8(v),
            RawValue::I16(v) => RawView::I16(v),
            RawValue::I32(v) => RawView::I32(v),
            RawValue::I64(v) => RawView::I64(v),
            RawValue::U8(v) => RawView::U8(v),
            RawValue::U16(v) => RawView::U16(v),
            RawValue::U32(v) => RawView::U32(v),
            RawValue::U64(v) => RawView::U64(v),
            RawValue::Str(v) => RawView::Str(v@),
            RawValue::Bytes(v) => RawView::Bytes(v@),
        }
    }
}

/// What an optional raw value holds: `None` is a null in the column.
pub open spec fn raw_view(raw: Option<RawValue>) -> Option<RawView> {
    match raw {
        Some(v) => Some(v@),
        None => None,
    }
}

/// An optional value read as a `bool`, as an optional raw value.
pub fn raw_bool<'a>(value: Option<bool>) -> (raw: Option<RawValue<'a>>)
    ensures
        raw == match value {
            Some(v) => Some(RawValue::Bool(v)),
            None => None,
        },
{
    match value {
        Some(v) => Some(RawValue::Bool(v)),
        None => None,
    }
}

/// An optional value read as an `i8`, as an optional raw value.
pub fn raw_i8<'a>(value: Option<i8>) -> (raw: Option<RawValue<'a>>)
    ensures
        raw == match value {
            Some(v) => Some(RawValue::I8(v)),
            None => None,
        },
{
    match value {
        Some(v) => Some(RawValue::I8(v)),
        None => None,
    }
}

/// An optional value read as an `i16`, as an optional raw value.
pub fn raw_i16<'a>(value: Option<i16>) -> (raw: Option<RawValue<'a>>)
    ensures
        raw == match value {
            Some(v) => Some(RawValue::I16(v)),
            None => None,
        },
{
    match value {
        Some(v) => Some(RawValue::I16(v)),
        None => None,
    }
}

/// An optional value read as an `i32`, as an optional raw value.
pub fn raw_i32<'a>(value: Option<i32>) -> (raw: Option<RawValue<'a>>)
    ensures
        raw == match value {
            Some(v) => Some(RawValue::I32(v)),
            None => None,
        },
{
    match value {
        Some(v) => Some(RawValue::I32(v)),
        None => None,
    }
}

/// An optional value read as an `i64`, as an optional raw value.
pub fn raw_i64<'a>(value: Option<i64>) -> (raw: Option<RawValue<'a>>)
    ensures
        raw == match value {
            Some(v) => Some(RawValue::I64(v)),
            None => None,
        },
{
    match value {
        Some(v) => Some(RawValue::I64(v)),
        None => None,
    }
}

/// An optional value read as a `u8`, as an optional raw value.
pub fn raw_u8<'a>(value: Option<u8>) -> (raw: Option<RawValue<'a>>)
    ensures
        raw == match value {
            Some(v) => Some(RawValue::U8(v)),
            None => None,
        },
{
    match value {
        Some(v) => Some(RawValue::U8(v)),
        None => None,
    }
}

/// An optional value read as a `u16`, as an optional raw value.
pub fn raw_u16<'a>(value: Option<u16>) -> (raw: Option<RawValue<'a>>)
    ensures
        raw == match value {
            Some(v) => Some(RawValue::U16(v)),
            None => None,
        },
{
    match value {
        Some(v) => Some(RawValue::U16(v)),
        None => None,
    }
}

/// An optional value read as a `u32`, as an optional raw value.
pub fn raw_u32<'a>(value: Option<u32>) -> (raw: Option<RawValue<'a>>)
    ensures
        raw == match value {
            Some(v) => Some(RawValue::U32(v)),
            None => None,
        },
{
    match value {
        Some(v) => Some(RawValue::U32(v)),
        None => None,
    }
}

/// An optional value read as a `u64`, as an optional raw value.
pub fn raw_u64<'a>(value: Option<u64>) -> (raw: Option<RawValue<'a>>)
    ensures
        raw == match value {
            Some(v) => Some(RawValue::U64(v)),
            None => None,
        },
{
    match value {
        Some(v) => Some(RawValue::U64(v)),
        None => None,
    }
}

/// An optional value read as text, as an optional raw value.
pub fn raw_str<'a>(value: Option<&'a str>) -> (raw: Option<RawValue<'a>>)
    ensures
        raw == match value {
            Some(v) => Some(RawValue::Str(v)),
            None => None,
        },
{
    match value {
        Some(v) => Some(RawValue::Str(v)),
        None => None,
    }
}

/// An optional value read as a byte blob, as an optional raw value.
pub fn raw_bytes<'a>(value: Option<&'a [u8]>) -> (raw: Option<RawValue<'a>>)
    ensures
        raw == match value {
            Some(v) => Some(RawValue::Bytes(v)),
            None => None,
        },
{
    match value {
        Some(v) => Some(RawValue::Bytes(v)),
        None => None,
    }
}

/// Every value of `values` that is not null has the representation `kind`.
pub open spec fn all_of_kind(values: Seq<Option<RawView>>, kind: RawKind) -> bool {
    forall|i: int| 0 <= i < values.len() ==> (#[trigger] values[i] matches Some(v) ==> v.kind() == kind)
}

/// One converted value of a row field.
#[derive(Clone, Debug, PartialEq)]
pub enum Value<'a> {
    Bool(bool),
    I8(i8),
    I16(i16),
    I32(i32),
    I64(i64),
    U8(u8),
    U16(u16),
    U32(u32),
    U64(u64),
    Str(&'a str),
    String(String),
    Bytes(&'a [u8]),
    DateTime(Timestamp),
}

/// What a `Value` holds.
pub enum ValueView {
    Bool(bool),
    I8(i8),
    I16(i16),
    I32(i32),
    I64(i64),
    U8(u8),
    U16(u16),
    U32(u32),
    U64(u64),
    Str(Seq<char>),
    String(Seq<char>),
    Bytes(Seq<u8>),
    DateTime(Timestamp),
}

impl<'a> View for Value<'a> {
    type V = ValueView;

    open spec fn view(&self) -> ValueView {
        match *self {
            Value::Bool(v) => ValueView::Bool(v),
            Value::I8(v) => ValueView::I8(v),
            Value::I16(v) => ValueView::I16(v),
            Value::I32(v) => ValueView::I32(v),
            Value::I64(v) => ValueView::I64(v),
            Value::U8(v) => ValueView::U8(v),
            Value::U16(v) => ValueView::U16(v),
            Value::U32(v) => ValueView::U32(v),
            Value::U64(v) => ValueView::U64(v),
            Value::Str(v) => ValueView::Str(v@),
            Value::String(v) => ValueView::String(v@),
            Value::Bytes(v) => ValueView::Bytes(v@),
            Value::DateTime(v) => ValueView::DateTime(v),
        }
    }
}

/// What one member of a row holds: `None` is the absent value of an optional
/// field.
pub open spec fn cell_view(cell: Option<Value>) -> Option<ValueView> {
    match cell {
        Some(v) => Some(v@),
        None => None,
    }
}

/// One row: a member per declared field, in declared order.
#[derive(Clone, Debug, PartialEq)]
pub struct Row<'a> {
    pub cells: Vec<Option<Value<'a>>>,
}

impl<'a> View for Row<'a> {
    type V = Seq<Option<ValueView>>;

    open spec fn view(&self) -> Seq<Option<ValueView>> {
        Seq::new(self.cells@.len(), |i: int| cell_view(self.cells@[i]))
    }
}

impl<'a> Row<'a> {
    /// The number of members.
    pub fn len(&self) -> (n: usize)
        ensures
            n == self@.len(),
    {
        self.cells.len()
    }

    /// The member of the field at position `index`.
    pub fn get(&self, index: usize) -> (cell: Option<&Value<'a>>)
        requires
            index < self@.len(),
        ensures
            cell_view_ref(cell) == self@[index as int],
    {
        self.cells[index].as_ref()
    }
}

/// As `cell_view`, of a borrowed member.
pub open spec fn cell_view_ref<'a>(cell: Option<&Value<'a>>) -> Option<ValueView> {
    match cell {
        Some(v) => Some(v@),
        None => None,
    }
}

} // verus!

use vstd::prelude::*;

verus! {

/// The precision of a temporal column's 64-bit count.
#[derive(Clone, Copy, Debug, PartialEq, Eq, Structural)]
pub enum TimeUnit {
    Nanoseconds,
    Microseconds,
    Milliseconds,
}

/// The declared element type of a column, as far as row iteration tells
/// element types apart: every other element type is `Other`. The two float
/// types are told apart so that a failure can name them; no target reads
/// them.
#[derive(Clone, Copy, Debug, PartialEq, Eq, Structural)]
pub enum ColumnType {
    Boolean,
    UInt8,
    UInt16,
    UInt32,
    UInt64,
    Int8,
    Int16,
    Int32,
    Int64,
    Float32,
    Float64,
    String,
    Categorical,
    Enum,
    Binary,
    BinaryOffset,
    Date,
    Time,
    Datetime(TimeUnit),
    Duration(TimeUnit),
    Other,
}

/// The scalar type that a row field is declared with.
#[derive(Clone, Copy, Debug, PartialEq, Eq, Structural)]
pub enum Target {
    Bool,
    I8,
    I16,
    I32,
    I64,
    U8,
    U16,
    U32,
    U64,
    /// Text borrowed from the table.
    Str,
    /// Text copied out of the table.
    String,
    /// A byte blob borrowed from the table.
    Bytes,
    /// A calendar date and time in UTC.
    DateTime,
}

/// The physical representation in which a cursor hands out a column's values.
#[derive(Clone, Copy, Debug, PartialEq, Eq, Structural)]
pub enum RawKind {
    Bool,
    I8,
    I16,
    I32,
    I64,
    U8,
    U16,
    U32,
    U64,
    Str,
    Bytes,
}

impl ColumnType {
    /// The boolean and fixed-width number element types.
    pub open spec fn is_numeric(self) -> bool {
        self is Boolean || self is UInt8 || self is UInt16 || self is UInt32 || self is UInt64
            || self is Int8 || self is Int16 || self is Int32 || self is Int64 || self is Float32
            || self is Float64
    }

    /// The text and byte-blob element types.
    pub open spec fn is_text_or_binary(self) -> bool {
        self is String || self is Categorical || self is Enum || self is Binary
            || self is BinaryOffset
    }

    /// The time-related element types.
    pub open spec fn is_temporal(self) -> bool {
        self is Date || self is Time || self is Datetime || self is Duration
    }
}

impl Target {
    /// The raw representation that values of this target are converted from.
    pub open spec fn raw_kind(self) -> RawKind {
        match self {
            Target::Bool => RawKind::Bool,
            Target::I8 => RawKind::I8,
            Target::I16 => RawKind::I16,
            Target::I32 => RawKind::I32,
            Target::I64 => RawKind::I64,
            Target::U8 => RawKind::U8,
            Target::U16 => RawKind::U16,
            Target::U32 => RawKind::U32,
            Target::U64 => RawKind::U64,
            Target::Str => RawKind::Str,
            Target::String => RawKind::Str,
            Target::Bytes => RawKind::Bytes,
            Target::DateTime => RawKind::I64,
        }
    }

    /// Whether a column of element type `dtype` is a source for this target.
    pub open spec fn accepts(self, dtype: ColumnType) -> bool {
        match self {
            Target::Bool => dtype is Boolean,
            Target::I8 => dtype is Int8,
            Target::I16 => dtype is Int16,
            Target::I32 => dtype is Int32 || dtype is Date,
            Target::I64 => dtype is Int64 || dtype is Time || dtype is Datetime
                || dtype is Duration,
            Target::U8 => dtype is UInt8,
            Target::U16 => dtype is UInt16,
            Target::U32 => dtype is UInt32,
            Target::U64 => dtype is UInt64,
            Target::Str => dtype is String || dtype is Categorical || dtype is Enum,
            Target::String => dtype is String || dtype is Categorical || dtype is Enum,
            Target::Bytes => dtype is Binary || dtype is BinaryOffset,
            Target::DateTime => dtype is Datetime,
        }
    }
}

} // verus!

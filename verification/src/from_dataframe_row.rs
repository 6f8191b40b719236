use vstd::prelude::*;
use polars::prelude::DataFrame;
use crate::column_names::ColumnNameBuilder;
use crate::column_names::ColumnNames;
use crate::error::RowError;
use crate::error::RowErrorView;
use crate::frame::column_name;
use crate::frame::column_type;
use crate::frame::column_values;
use crate::frame::element_type;
use crate::frame::frame_column;
use crate::frame::frame_columns;
use crate::iter_from_column::IterFromColumn;
use crate::rows_iter::kinded;
use crate::rows_iter::BoundColumn;
use crate::rows_iter::BoundField;
use crate::rows_iter::BoundView;
use crate::rows_iter::RowsIter;
use crate::value::all_of_kind;
use crate::value::RawView;

verus! {

/// One declared field of a row: its name, the column it is read from unless
/// the caller names another, and its conversion strategy.
#[derive(Clone, Debug, PartialEq, Eq)]
pub struct Field {
    pub name: String,
    pub column: String,
    pub strategy: IterFromColumn,
}

/// What a `Field` holds.
pub struct FieldView {
    pub name: Seq<char>,
    pub column: Seq<char>,
    pub strategy: IterFromColumn,
}

impl View for Field {
    type V = FieldView;

    open spec fn view(&self) -> FieldView {
        FieldView { name: self.name@, column: self.column@, strategy: self.strategy }
    }
}

/// The declaration of a row: its fields, in the order in which a row holds
/// their values.
#[derive(Clone, Debug, PartialEq, Eq)]
pub struct FromDataFrameRow {
    fields: Vec<Field>,
}

impl View for FromDataFrameRow {
    type V = Seq<FieldView>;

    closed spec fn view(&self) -> Seq<FieldView> {
        Seq::new(self.fields@.len(), |i: int| self.fields@[i]@)
    }
}

/// The column that a field is read from: the one that the caller set for the
/// field, else the field's declared column.
pub open spec fn resolved_name(field: FieldView, columns: Map<Seq<char>, Seq<char>>) -> Seq<char> {
    if columns.dom().contains(field.name) {
        columns[field.name]
    } else {
        field.column
    }
}

/// Why a field cannot be bound to the table, if it cannot: the table has no
/// column of the resolved name, or the column's element type is no source
/// for the field's target.
pub open spec fn field_failure(df: DataFrame, field: FieldView, columns: Map<Seq<char>, Seq<char>>) -> Option<
    RowErrorView,
> {
    let name = resolved_name(field, columns);
    if !frame_columns(df).dom().contains(name) {
        Some(RowErrorView::MissingColumn { name })
    } else {
        let column = frame_columns(df)[name];
        if !field.strategy.target.accepts(column_type(column)) {
            Some(
                RowErrorView::IncompatibleEncoding {
                    column: column_name(column),
                    dtype: column_type(column),
                    target: field.strategy.target,
                },
            )
        } else {
            None
        }
    }
}

/// The failure of the first field, from `start` on in declared order, that
/// cannot be bound; `None` if they all can.
pub open spec fn binding_failure_from(
    df: DataFrame,
    fields: Seq<FieldView>,
    columns: Map<Seq<char>, Seq<char>>,
    start: int,
) -> Option<RowErrorView>
    decreases fields.len() - start,
{
    if start >= fields.len() {
        None
    } else {
        match field_failure(df, fields[start], columns) {
            Some(e) => Some(e),
            None => binding_failure_from(df, fields, columns, start + 1),
        }
    }
}

/// A field as it is bound to the table.
pub open spec fn bound_field(df: DataFrame, field: FieldView, columns: Map<Seq<char>, Seq<char>>) -> BoundView {
    let name = resolved_name(field, columns);
    BoundView { column: name, strategy: field.strategy, dtype: column_type(frame_columns(df)[name]) }
}

/// The values of the column that a field is bound to, in row order.
pub open spec fn bound_values(df: DataFrame, field: FieldView, columns: Map<Seq<char>, Seq<char>>) -> Seq<
    Option<RawView>,
> {
    column_values(frame_columns(df)[resolved_name(field, columns)])
}

/// What binding the fields to a table comes to: a session that stands at the
/// first row of every field's column, or the failure of the first field that
/// cannot be bound.
pub open spec fn bound_to(
    res: Result<RowsIter, RowError>,
    df: DataFrame,
    fields: Seq<FieldView>,
    columns: Map<Seq<char>, Seq<char>>,
) -> bool {
    match res {
        Ok(rows) => {
            &&& binding_failure_from(df, fields, columns, 0) is None
            &&& rows.bound() == Seq::new(fields.len(), |i: int| bound_field(df, fields[i], columns))
            &&& rows.rests() == Seq::new(fields.len(), |i: int| bound_values(df, fields[i], columns))
            &&& kinded(rows.bound(), rows.rests())
        },
        Err(e) => binding_failure_from(df, fields, columns, 0) == Some(e@),
    }
}

impl FromDataFrameRow {
    /// The declaration of a row without fields.
    pub fn new() -> (shape: Self)
        ensures
            shape@ == Seq::<FieldView>::empty(),
    {
        FromDataFrameRow { fields: Vec::new() }
    }

    /// Declares one more field, read from the column of the field's own
    /// name.
    pub fn field(self, name: &str, strategy: IterFromColumn) -> (shape: Self)
        ensures
            shape@ == self@.push(FieldView { name: name@, column: name@, strategy }),
    {
        self.field_in(name, name, strategy)
    }

    /// Declares one more field, read from the column `column_name`.
    pub fn field_in(self, name: &str, column_name: &str, strategy: IterFromColumn) -> (shape: Self)
        ensures
            shape@ == self@.push(FieldView { name: name@, column: column_name@, strategy }),
    {
        let ghost before = self@;
        let mut fields = self.fields;
        fields.push(Field { name: name.to_owned(), column: column_name.to_owned(), strategy });
        let shape = FromDataFrameRow { fields };
        proof {
            assert(shape@ =~= before.push(FieldView { name: name@, column: column_name@, strategy }));
        }
        shape
    }

    /// The number of declared fields.
    pub fn len(&self) -> (n: usize)
        ensures
            n == self@.len(),
    {
        self.fields.len()
    }

    /// A builder in which the caller sets the columns of this row's fields.
    pub fn create_builder(&self) -> (builder: ColumnNameBuilder)
        ensures
            builder@ == Map::<Seq<char>, Seq<char>>::empty(),
    {
        ColumnNameBuilder::new()
    }

    /// Binds every field to the table, in declared order, before any row is
    /// read: resolves the field's column name, looks the column up, and opens
    /// a cursor over it. The first field that cannot be bound fails the
    /// whole call.
    pub fn from_dataframe<'a>(&self, dataframe: &'a DataFrame, columns: &ColumnNames) -> (res: Result<
        RowsIter<'a>,
        RowError,
    >)
        ensures
            bound_to(res, *dataframe, self@, columns@),
    {
        let ghost fields = self@;
        let mut bound: Vec<BoundColumn<'a>> = Vec::new();
        let mut i: usize = 0;
        while i < self.fields.len()
            invariant
                i <= self.fields.len(),
                fields == self@,
                fields.len() == self.fields@.len(),
                bound@.len() == i,
                binding_failure_from(*dataframe, fields, columns@, 0) == binding_failure_from(
                    *dataframe,
                    fields,
                    columns@,
                    i as int,
                ),
                forall|j: int|
                    0 <= j < i ==> (#[trigger] bound@[j]).field@ == bound_field(*dataframe, fields[j], columns@),
                forall|j: int|
                    0 <= j < i ==> (#[trigger] bound@[j]).cursor.rest() == bound_values(
                        *dataframe,
                        fields[j],
                        columns@,
                    ),
                forall|j: int|
                    0 <= j < i ==> all_of_kind(
                        (#[trigger] bound@[j]).cursor.rest(),
                        fields[j].strategy.target.raw_kind(),
                    ),
            decreases self.fields.len() - i,
        {
            let field = &self.fields[i];
            proof {
                assert(fields[i as int] == field@);
            }
            let name = match columns.get(field.name.as_str()) {
                Some(name) => name.to_owned(),
                None => field.column.clone(),
            };
            let column = match frame_column(dataframe, name.as_str()) {
                Ok(column) => column,
                Err(_) => {
                    return Err(RowError::MissingColumn { name });
                },
            };
            let cursor = match field.strategy.create_iter(column) {
                Ok(cursor) => cursor,
                Err(e) => {
                    return Err(e);
                },
            };
            let dtype = element_type(column);
            bound.push(BoundColumn { field: BoundField { column: name, strategy: field.strategy, dtype }, cursor });
            i = i + 1;
        }
        let rows = RowsIter::new(bound);
        proof {
            assert(rows.bound() =~= Seq::new(fields.len(), |i: int| bound_field(*dataframe, fields[i], columns@)));
            assert(rows.rests() =~= Seq::new(fields.len(), |i: int| bound_values(*dataframe, fields[i], columns@)));
        }
        Ok(rows)
    }
}

} // verus!

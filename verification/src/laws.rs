use vstd::prelude::*;
use polars::prelude::DataFrame;
use crate::error::outcome_view;
use crate::error::RowError;
use crate::error::RowErrorView;
use crate::from_dataframe_row::binding_failure_from;
use crate::from_dataframe_row::bound_field;
use crate::from_dataframe_row::bound_to;
use crate::from_dataframe_row::bound_values;
use crate::from_dataframe_row::field_failure;
use crate::from_dataframe_row::resolved_name;
use crate::from_dataframe_row::FieldView;
use crate::frame::frame_columns;
use crate::iter_from_column::iter_from_column_chrono::datetime::create_datetime_spec;
use crate::iter_from_column::convert_spec;
use crate::rows_iter::advance;
use crate::rows_iter::assemble;
use crate::rows_iter::converted;
use crate::rows_iter::failure_from;
use crate::rows_iter::first_exhausted;
use crate::rows_iter::kinded;
use crate::rows_iter::lemma_first_exhausted;
use crate::rows_iter::lemma_row_count;
use crate::rows_iter::member;
use crate::rows_iter::outcomes;
use crate::rows_iter::raws_at;
use crate::rows_iter::row_count;
use crate::rows_iter::BoundView;
use crate::rows_iter::RowsIter;
use crate::value::all_of_kind;
use crate::value::RawView;
use crate::value::Timestamp;
use crate::value::ValueView;

verus! {

/// A value holds the very data of a raw value: the same boolean, number,
/// text or bytes.
pub open spec fn same_data(value: ValueView, raw: RawView) -> bool {
    match (value, raw) {
        (ValueView::Bool(v), RawView::Bool(r)) => v == r,
        (ValueView::I8(v), RawView::I8(r)) => v == r,
        (ValueView::I16(v), RawView::I16(r)) => v == r,
        (ValueView::I32(v), RawView::I32(r)) => v == r,
        (ValueView::I64(v), RawView::I64(r)) => v == r,
        (ValueView::U8(v), RawView::U8(r)) => v == r,
        (ValueView::U16(v), RawView::U16(r)) => v == r,
        (ValueView::U32(v), RawView::U32(r)) => v == r,
        (ValueView::U64(v), RawView::U64(r)) => v == r,
        (ValueView::Str(v), RawView::Str(r)) => v == r,
        (ValueView::String(v), RawView::Str(r)) => v == r,
        (ValueView::Bytes(v), RawView::Bytes(r)) => v == r,
        _ => false,
    }
}

/// A member holds what the raw value `raw` of its field stands for: nothing
/// for a null; the raw value's own data for every target but the calendar
/// one; and for that one the date and time that the raw count stands for at
/// the column's time unit.
pub open spec fn carries(cell: Option<ValueView>, bound: BoundView, raw: Option<RawView>) -> bool {
    match (raw, cell) {
        (None, None) => true,
        (Some(r), Some(value)) => if bound.strategy.target is DateTime {
            &&& r is I64
            &&& value is DateTime
            &&& create_datetime_spec(r->I64_0, bound.column, bound.dtype) == Ok::<Timestamp, RowErrorView>(
                value->DateTime_0,
            )
        } else {
            same_data(value, r)
        },
        _ => false,
    }
}

/// Pass-through: a raw value in the representation of a target other than
/// the calendar one converts, without fail, to a value of the same data.
pub proof fn law_pass_through(bound: BoundView, raw: RawView)
    requires
        raw.kind() == bound.strategy.target.raw_kind(),
        !(bound.strategy.target is DateTime),
    ensures
        convert_spec(bound.strategy.target, raw, bound.column, bound.dtype) is Ok,
        same_data(convert_spec(bound.strategy.target, raw, bound.column, bound.dtype)->Ok_0, raw),
{
}

/// No field from `start` on fails exactly when each of them converts; and
/// the failure reported is that of the first field that does not.
pub proof fn lemma_failure_from(bound: Seq<BoundView>, raws: Seq<Option<RawView>>, start: int)
    requires
        0 <= start <= bound.len(),
    ensures
        failure_from(bound, raws, start) is None <==> forall|j: int|
            start <= j < bound.len() ==> (#[trigger] member(bound[j], raws[j])) is Ok,
        forall|k: int|
            start <= k < bound.len() && (#[trigger] member(bound[k], raws[k])) is Err && (forall|j: int|
                start <= j < k ==> (#[trigger] member(bound[j], raws[j])) is Ok) ==> failure_from(
                bound,
                raws,
                start,
            ) == Some(member(bound[k], raws[k])->Err_0),
    decreases bound.len() - start,
{
    if start < bound.len() {
        lemma_failure_from(bound, raws, start + 1);
        if member(bound[start], raws[start]) is Ok {
            assert forall|k: int|
                start <= k < bound.len() && (#[trigger] member(bound[k], raws[k])) is Err && (forall|j: int|
                    start <= j < k ==> (#[trigger] member(bound[j], raws[j])) is Ok) implies failure_from(
                bound,
                raws,
                start,
            ) == Some(member(bound[k], raws[k])->Err_0) by {
                assert(k != start);
            }
        }
    }
}

/// Alignment: where every declared field binds to a column of the table and
/// the columns are all `height` long, the session yields `height` outcomes,
/// and the row at position `position` takes the member of each field `i`
/// from position `position` of that field's column: nothing for a null,
/// else the column's value or its converted form.
pub proof fn law_alignment(
    df: DataFrame,
    fields: Seq<FieldView>,
    columns: Map<Seq<char>, Seq<char>>,
    height: nat,
    position: int,
    i: int,
)
    requires
        binding_failure_from(df, fields, columns, 0) is None,
        kinded(
            Seq::new(fields.len(), |i: int| bound_field(df, fields[i], columns)),
            Seq::new(fields.len(), |i: int| bound_values(df, fields[i], columns)),
        ),
        forall|j: int| 0 <= j < fields.len() ==> (#[trigger] bound_values(df, fields[j], columns)).len() == height,
        0 <= position < height,
        0 <= i < fields.len(),
    ensures
        ({
            let bound = Seq::new(fields.len(), |i: int| bound_field(df, fields[i], columns));
            let rests = Seq::new(fields.len(), |i: int| bound_values(df, fields[i], columns));
            &&& outcomes(bound, rests).len() == height
            &&& outcomes(bound, rests)[position] matches Ok(row) ==> (row.len() == fields.len() && carries(
                row[i],
                bound[i],
                bound_values(df, fields[i], columns)[position],
            ))
        }),
{
    let bound = Seq::new(fields.len(), |i: int| bound_field(df, fields[i], columns));
    let rests = Seq::new(fields.len(), |i: int| bound_values(df, fields[i], columns));
    lemma_row_count(rests);
    let k = choose|k: int| 0 <= k < rests.len() && row_count(rests) == (#[trigger] rests[k]).len();
    assert(rests[k] == bound_values(df, fields[k], columns));
    assert(row_count(rests) == height);
    let raws = raws_at(rests, position);
    lemma_failure_from(bound, raws, 0);
    if assemble(bound, raws) is Ok {
        assert(member(bound[i], raws[i]) is Ok);
        assert(raws[i] == bound_values(df, fields[i], columns)[position]);
        assert(all_of_kind(rests[i], bound[i].strategy.target.raw_kind()));
        if raws[i] is Some {
            assert(rests[i][position] == raws[i]);
            if !(bound[i].strategy.target is DateTime) {
                law_pass_through(bound[i], raws[i]->0);
            }
        }
    }
}

/// Null in a mandatory field: the outcome of that row position is a
/// failure whatever the other fields hold; it is the null-value failure
/// naming the field's column unless a field declared before it fails
/// at that position, whose failure is then the one reported.
pub proof fn law_null_mandatory(
    bound: Seq<BoundView>,
    rests: Seq<Seq<Option<RawView>>>,
    position: int,
    i: int,
)
    requires
        bound.len() == rests.len(),
        0 <= position < row_count(rests),
        0 <= i < bound.len(),
        !bound[i].strategy.optional,
        rests[i][position] is None,
    ensures
        outcomes(bound, rests)[position] is Err,
        (forall|j: int| 0 <= j < i ==> (#[trigger] member(bound[j], rests[j][position])) is Ok) ==> outcomes(
            bound,
            rests,
        )[position] == Err::<Seq<Option<ValueView>>, RowErrorView>(
            RowErrorView::UnexpectedNull { column: bound[i].column },
        ),
{
    let raws = raws_at(rests, position);
    lemma_failure_from(bound, raws, 0);
    assert(member(bound[i], raws[i]) is Err);
    if forall|j: int| 0 <= j < i ==> (#[trigger] member(bound[j], rests[j][position])) is Ok {
        assert forall|j: int| 0 <= j < i implies (#[trigger] member(bound[j], raws[j])) is Ok by {
            assert(member(bound[j], rests[j][position]) is Ok);
        }
    }
}

/// Null in an optional field: the field's member is the absent value, never
/// a failure. The row has the absent value there; and if the outcome of the
/// position is a failure, it is the failure of another field.
pub proof fn law_null_optional(bound: Seq<BoundView>, rests: Seq<Seq<Option<RawView>>>, position: int, i: int)
    requires
        bound.len() == rests.len(),
        0 <= position < row_count(rests),
        0 <= i < bound.len(),
        bound[i].strategy.optional,
        rests[i][position] is None,
    ensures
        member(bound[i], rests[i][position]) == Ok::<Option<ValueView>, RowErrorView>(None),
        outcomes(bound, rests)[position] matches Ok(row) ==> row[i] is None,
        (forall|j: int| 0 <= j < bound.len() && j != i ==> (#[trigger] member(bound[j], rests[j][position])) is Ok)
            ==> outcomes(bound, rests)[position] is Ok,
{
    let raws = raws_at(rests, position);
    lemma_failure_from(bound, raws, 0);
    if forall|j: int| 0 <= j < bound.len() && j != i ==> (#[trigger] member(bound[j], rests[j][position])) is Ok {
        assert forall|j: int| 0 <= j < bound.len() implies (#[trigger] member(bound[j], raws[j])) is Ok by {
            if j != i {
                assert(member(bound[j], rests[j][position]) is Ok);
            }
        }
    }
}

/// No field from `start` on fails to bind exactly when each of them binds;
/// and the failure reported is that of the first field that does not.
pub proof fn lemma_binding_failure_from(
    df: DataFrame,
    fields: Seq<FieldView>,
    columns: Map<Seq<char>, Seq<char>>,
    start: int,
)
    requires
        0 <= start <= fields.len(),
    ensures
        binding_failure_from(df, fields, columns, start) is None <==> forall|j: int|
            start <= j < fields.len() ==> (#[trigger] field_failure(df, fields[j], columns)) is None,
        forall|k: int|
            start <= k < fields.len() && (#[trigger] field_failure(df, fields[k], columns)) is Some && (forall|
                j: int,
            |
                start <= j < k ==> (#[trigger] field_failure(df, fields[j], columns)) is None)
                ==> binding_failure_from(df, fields, columns, start) == field_failure(df, fields[k], columns),
    decreases fields.len() - start,
{
    if start < fields.len() {
        lemma_binding_failure_from(df, fields, columns, start + 1);
        if field_failure(df, fields[start], columns) is None {
            assert forall|k: int|
                start <= k < fields.len() && (#[trigger] field_failure(df, fields[k], columns)) is Some && (forall|
                    j: int,
                |
                    start <= j < k ==> (#[trigger] field_failure(df, fields[j], columns)) is None)
                implies binding_failure_from(df, fields, columns, start) == field_failure(
                df,
                fields[k],
                columns,
            ) by {
                assert(k != start);
            }
        }
    }
}

/// Fail fast: if the table has no column of the resolved name of some
/// declared field, opening the session fails and no session is made,
/// whatever the other fields are. If the fields declared before that one
/// bind, the failure is the missing column, by its resolved name.
pub proof fn law_fail_fast(
    res: Result<RowsIter, RowError>,
    df: DataFrame,
    fields: Seq<FieldView>,
    columns: Map<Seq<char>, Seq<char>>,
    i: int,
)
    requires
        bound_to(res, df, fields, columns),
        0 <= i < fields.len(),
        !frame_columns(df).dom().contains(resolved_name(fields[i], columns)),
    ensures
        res is Err,
        (forall|j: int| 0 <= j < i ==> (#[trigger] field_failure(df, fields[j], columns)) is None)
            ==> outcome_view(res) == Err::<RowsIter, RowErrorView>(
            RowErrorView::MissingColumn { name: resolved_name(fields[i], columns) },
        ),
{
    lemma_binding_failure_from(df, fields, columns, 0);
    assert(field_failure(df, fields[i], columns) is Some);
}

/// Override precedence: a field is read from the column that the caller set
/// for it, and from its declared column if the caller set none.
pub proof fn law_override_precedence(field: FieldView, columns: Map<Seq<char>, Seq<char>>, column: Seq<char>)
    ensures
        resolved_name(field, columns.insert(field.name, column)) == column,
        !columns.dom().contains(field.name) ==> resolved_name(field, columns) == field.column,
{
}

/// The end is final: once a session has ended, it ends again however often
/// it is asked.
pub proof fn law_end_is_final(rests: Seq<Seq<Option<RawView>>>)
    requires
        first_exhausted(rests, 0) < rests.len(),
    ensures
        first_exhausted(advance(rests, first_exhausted(rests, 0)), 0) < rests.len(),
{
    let k = first_exhausted(rests, 0);
    let after = advance(rests, k);
    lemma_first_exhausted(rests, 0);
    lemma_first_exhausted(after, 0);
    assert(after[k] == rests[k]);
    if first_exhausted(after, 0) >= rests.len() {
        assert(after[k].len() > 0);
    }
}

} // verus!

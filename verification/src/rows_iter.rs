use vstd::prelude::*;
use crate::cursor::ColumnCursor;
use crate::dtype::ColumnType;
use crate::error::RowError;
use crate::error::RowErrorView;
use crate::iter_from_column::get_value_spec;
use crate::iter_from_column::IterFromColumn;
use crate::value::all_of_kind;
use crate::value::cell_view;
use crate::value::raw_view;
use crate::value::RawValue;
use crate::value::RawView;
use crate::value::Row;
use crate::value::Value;
use crate::value::ValueView;

verus! {

/// One field of a row as it is bound for a session: the column it is read
/// from, its conversion strategy, and the column's element type.
#[derive(Clone, Debug, PartialEq, Eq)]
pub struct BoundField {
    pub column: String,
    pub strategy: IterFromColumn,
    pub dtype: ColumnType,
}

/// What a `BoundField` holds.
pub struct BoundView {
    pub column: Seq<char>,
    pub strategy: IterFromColumn,
    pub dtype: ColumnType,
}

impl View for BoundField {
    type V = BoundView;

    open spec fn view(&self) -> BoundView {
        BoundView { column: self.column@, strategy: self.strategy, dtype: self.dtype }
    }
}

/// A bound field with the cursor over its column.
pub struct BoundColumn<'a> {
    pub field: BoundField,
    pub cursor: ColumnCursor<'a>,
}

/// The member of a row that the raw value `raw` becomes for a bound field.
pub open spec fn member(bound: BoundView, raw: Option<RawView>) -> Result<Option<ValueView>, RowErrorView> {
    get_value_spec(bound.strategy, raw, bound.column, bound.dtype)
}

/// The failure of the first field, from `start` on in declared order, whose
/// raw value does not convert; `None` if they all convert.
pub open spec fn failure_from(bound: Seq<BoundView>, raws: Seq<Option<RawView>>, start: int) -> Option<
    RowErrorView,
>
    decreases bound.len() - start,
{
    if start >= bound.len() {
        None
    } else {
        match member(bound[start], raws[start]) {
            Err(e) => Some(e),
            Ok(_) => failure_from(bound, raws, start + 1),
        }
    }
}

/// The value of a member that converted.
pub open spec fn converted(member: Result<Option<ValueView>, RowErrorView>) -> Option<ValueView> {
    match member {
        Ok(cell) => cell,
        Err(_) => None,
    }
}

/// The outcome of one row position: the row of the converted members, or
/// the failure of the first field in declared order that does not convert.
pub open spec fn assemble(bound: Seq<BoundView>, raws: Seq<Option<RawView>>) -> Result<
    Seq<Option<ValueView>>,
    RowErrorView,
> {
    match failure_from(bound, raws, 0) {
        Some(e) => Err(e),
        None => Ok(Seq::new(bound.len(), |i: int| converted(member(bound[i], raws[i])))),
    }
}

/// The index of the first cursor, from `start` on, that is exhausted; the
/// number of cursors if none is.
pub open spec fn first_exhausted(rests: Seq<Seq<Option<RawView>>>, start: int) -> int
    decreases rests.len() - start,
{
    if start >= rests.len() {
        rests.len() as int
    } else if rests[start].len() == 0 {
        start
    } else {
        first_exhausted(rests, start + 1)
    }
}

/// The next value of each cursor.
pub open spec fn heads(rests: Seq<Seq<Option<RawView>>>) -> Seq<Option<RawView>> {
    Seq::new(rests.len(), |i: int| rests[i][0])
}

/// The cursors after each of the first `count` has handed out one value.
pub open spec fn advance(rests: Seq<Seq<Option<RawView>>>, count: int) -> Seq<Seq<Option<RawView>>> {
    Seq::new(
        rests.len(),
        |i: int|
            if i < count {
                rests[i].skip(1)
            } else {
                rests[i]
            },
    )
}

/// Every cursor hands out values in the raw representation of its field's
/// target.
pub open spec fn kinded(bound: Seq<BoundView>, rests: Seq<Seq<Option<RawView>>>) -> bool {
    &&& bound.len() == rests.len()
    &&& forall|i: int|
        0 <= i < bound.len() ==> all_of_kind(#[trigger] rests[i], bound[i].strategy.target.raw_kind())
}

/// Cursors that move on go on handing out values of their representation.
pub proof fn lemma_kinded_advance(bound: Seq<BoundView>, rests: Seq<Seq<Option<RawView>>>, count: int)
    requires
        kinded(bound, rests),
        forall|i: int| 0 <= i < count && i < rests.len() ==> (#[trigger] rests[i]).len() > 0,
    ensures
        kinded(bound, advance(rests, count)),
{
    let after = advance(rests, count);
    assert forall|i: int| 0 <= i < bound.len() implies all_of_kind(
        #[trigger] after[i],
        bound[i].strategy.target.raw_kind(),
    ) by {
        assert(all_of_kind(rests[i], bound[i].strategy.target.raw_kind()));
        if i < count {
            assert forall|j: int| 0 <= j < after[i].len() implies (#[trigger] after[i][j] matches Some(v) ==> v.kind()
                == bound[i].strategy.target.raw_kind()) by {
                assert(after[i][j] == rests[i][j + 1]);
            }
        }
    }
}

/// What the outcome of one row position holds.
pub open spec fn outcome_of(outcome: Result<Row, RowError>) -> Result<Seq<Option<ValueView>>, RowErrorView> {
    match outcome {
        Ok(row) => Ok(row@),
        Err(e) => Err(e@),
    }
}

/// The number of rows that a session yields: the length of its shortest
/// cursor. Cursors over the columns of one table are all of the table's
/// height.
pub open spec fn row_count(rests: Seq<Seq<Option<RawView>>>) -> nat
    decreases rests.len(),
{
    if rests.len() == 0 {
        0
    } else if rests.len() == 1 {
        rests[0].len()
    } else if rests.last().len() < row_count(rests.drop_last()) {
        rests.last().len()
    } else {
        row_count(rests.drop_last())
    }
}

/// The raw value of each field at the row position `position`.
pub open spec fn raws_at(rests: Seq<Seq<Option<RawView>>>, position: int) -> Seq<Option<RawView>> {
    Seq::new(rests.len(), |i: int| rests[i][position])
}

/// The cursors after `count` row positions.
pub open spec fn skipped(rests: Seq<Seq<Option<RawView>>>, count: int) -> Seq<Seq<Option<RawView>>> {
    Seq::new(rests.len(), |i: int| rests[i].skip(count))
}

/// The outcomes that a session yields, in row order: one per row position.
pub open spec fn outcomes(bound: Seq<BoundView>, rests: Seq<Seq<Option<RawView>>>) -> Seq<
    Result<Seq<Option<ValueView>>, RowErrorView>,
> {
    Seq::new(row_count(rests), |position: int| assemble(bound, raws_at(rests, position)))
}

/// What a list of outcomes holds.
pub open spec fn outcomes_of(outcomes: Seq<Result<Row, RowError>>) -> Seq<
    Result<Seq<Option<ValueView>>, RowErrorView>,
> {
    Seq::new(outcomes.len(), |i: int| outcome_of(outcomes[i]))
}

/// The first exhausted cursor is exhausted, and no cursor before it is.
pub proof fn lemma_first_exhausted(rests: Seq<Seq<Option<RawView>>>, start: int)
    requires
        0 <= start <= rests.len(),
    ensures
        start <= first_exhausted(rests, start) <= rests.len(),
        first_exhausted(rests, start) < rests.len() ==> rests[first_exhausted(rests, start)].len() == 0,
        forall|i: int| start <= i < first_exhausted(rests, start) ==> (#[trigger] rests[i]).len() > 0,
    decreases rests.len() - start,
{
    if start < rests.len() && rests[start].len() > 0 {
        lemma_first_exhausted(rests, start + 1);
    }
}

/// The row count is the length of some cursor, and no cursor is shorter.
pub proof fn lemma_row_count(rests: Seq<Seq<Option<RawView>>>)
    requires
        rests.len() > 0,
    ensures
        forall|i: int| 0 <= i < rests.len() ==> row_count(rests) <= (#[trigger] rests[i]).len(),
        exists|i: int| 0 <= i < rests.len() && row_count(rests) == (#[trigger] rests[i]).len(),
    decreases rests.len(),
{
    if rests.len() > 1 {
        let front = rests.drop_last();
        lemma_row_count(front);
        assert forall|i: int| 0 <= i < rests.len() implies row_count(rests) <= (#[trigger] rests[i]).len() by {
            if i < front.len() {
                assert(front[i] == rests[i]);
            }
        }
        let k = choose|i: int| 0 <= i < front.len() && row_count(front) == (#[trigger] front[i]).len();
        assert(front[k] == rests[k]);
        if rests.last().len() < row_count(front) {
            assert(row_count(rests) == rests[rests.len() - 1].len());
        } else {
            assert(row_count(rests) == rests[k].len());
        }
    } else {
        assert(row_count(rests) == rests[0].len());
    }
}

/// A session of row iteration: the lazy sequence of the rows of a table,
/// one outcome per row position, in row order.
pub struct RowsIter<'a> {
    columns: Vec<BoundColumn<'a>>,
}

impl<'a> RowsIter<'a> {
    /// The bound fields, in declared order.
    pub closed spec fn bound(&self) -> Seq<BoundView> {
        Seq::new(self.columns@.len(), |i: int| self.columns@[i].field@)
    }

    /// What each field's cursor has yet to hand out.
    pub closed spec fn rests(&self) -> Seq<Seq<Option<RawView>>> {
        Seq::new(self.columns@.len(), |i: int| self.columns@[i].cursor.rest())
    }

    /// A session over the given bound columns.
    pub(crate) fn new(columns: Vec<BoundColumn<'a>>) -> (rows: Self)
        ensures
            rows.bound() == Seq::new(columns@.len(), |i: int| columns@[i].field@),
            rows.rests() == Seq::new(columns@.len(), |i: int| columns@[i].cursor.rest()),
    {
        RowsIter { columns }
    }

    /// The number of fields of a row.
    pub fn width(&self) -> (n: usize)
        ensures
            n == self.bound().len(),
            n == self.rests().len(),
    {
        self.columns.len()
    }

    /// Builds the row of one position from the raw value of each field,
    /// converting in declared order and stopping at the first failure.
    fn create(&self, raws: &Vec<Option<RawValue<'a>>>) -> (outcome: Result<Row<'a>, RowError>)
        requires
            raws@.len() == self.bound().len(),
        ensures
            outcome_of(outcome) == assemble(self.bound(), Seq::new(raws@.len(), |i: int| raw_view(raws@[i]))),
    {
        let ghost bound = self.bound();
        let ghost views = Seq::new(raws@.len(), |i: int| raw_view(raws@[i]));
        let mut cells: Vec<Option<Value<'a>>> = Vec::new();
        let mut i: usize = 0;
        while i < self.columns.len()
            invariant
                i <= self.columns.len(),
                raws@.len() == self.columns@.len(),
                bound == self.bound(),
                views == Seq::new(raws@.len(), |i: int| raw_view(raws@[i])),
                cells@.len() == i,
                failure_from(bound, views, 0) == failure_from(bound, views, i as int),
                forall|j: int| 0 <= j < i ==> cell_view(#[trigger] cells@[j]) == converted(member(bound[j], views[j])),
            decreases self.columns.len() - i,
        {
            let field = &self.columns[i].field;
            let raw = raws[i];
            match field.strategy.get_value(raw, field.column.as_str(), field.dtype) {
                Ok(cell) => {
                    cells.push(cell);
                },
                Err(e) => {
                    return Err(e);
                },
            }
            i = i + 1;
        }
        let row = Row { cells };
        proof {
            assert(row@ =~= Seq::new(bound.len(), |i: int| converted(member(bound[i], views[i]))));
        }
        Ok(row)
    }

    /// The outcome of the next row position, or `None` at the end of data.
    ///
    /// Every field's cursor is asked for its next value, in declared order.
    /// If one of them is exhausted the sequence ends, the cursors before it
    /// having moved on. Otherwise the values are converted in declared
    /// order: the outcome is the row, or the first failure.
    pub fn next(&mut self) -> (item: Option<Result<Row<'a>, RowError>>)
        ensures
            final(self).bound() == old(self).bound(),
            final(self).rests() == advance(old(self).rests(), first_exhausted(old(self).rests(), 0)),
            kinded(old(self).bound(), old(self).rests()) ==> kinded(final(self).bound(), final(self).rests()),
            match item {
                Some(outcome) => first_exhausted(old(self).rests(), 0) == old(self).rests().len()
                    && outcome_of(outcome) == assemble(old(self).bound(), heads(old(self).rests())),
                None => first_exhausted(old(self).rests(), 0) < old(self).rests().len(),
            },
    {
        let ghost before = self.rests();
        proof {
            if kinded(self.bound(), before) {
                lemma_first_exhausted(before, 0);
                lemma_kinded_advance(self.bound(), before, first_exhausted(before, 0));
            }
        }
        let n = self.columns.len();
        let mut raws: Vec<Option<RawValue<'a>>> = Vec::new();
        let mut i: usize = 0;
        while i < n
            invariant
                i <= n,
                n == self.columns@.len(),
                before == old(self).rests(),
                before.len() == n,
                self.bound() == old(self).bound(),
                raws@.len() == i,
                first_exhausted(before, 0) == first_exhausted(before, i as int),
                kinded(old(self).bound(), before) ==> kinded(
                    old(self).bound(),
                    advance(before, first_exhausted(before, 0)),
                ),
                forall|j: int| 0 <= j < i ==> before[j].len() > 0 && raw_view(#[trigger] raws@[j]) == before[j][0],
                self.rests() == advance(before, i as int),
            decreases n - i,
        {
            let ghost rests = self.rests();
            let ghost columns = self.columns@;
            let item = self.columns[i].cursor.next();
            proof {
                // Only the cursor of field `i` has changed.
                assert(self.bound() =~= old(self).bound());
                assert forall|j: int| 0 <= j < n && j != i implies self.rests()[j] == rests[j] by {
                    assert(self.columns@[j] == columns[j]);
                }
                assert(rests[i as int] == columns[i as int].cursor.rest());
            }
            match item {
                Some(raw) => {
                    raws.push(raw);
                    proof {
                        assert forall|j: int| 0 <= j < n implies self.rests()[j] == advance(before, i + 1)[j] by {
                            if j != i {
                                assert(self.rests()[j] == rests[j]);
                            }
                        }
                        assert(self.rests() =~= advance(before, i + 1));
                    }
                },
                None => {
                    proof {
                        assert(self.rests() =~= advance(before, i as int));
                    }
                    return None;
                },
            }
            i = i + 1;
        }
        let outcome = self.create(&raws);
        proof {
            assert(Seq::new(raws@.len(), |i: int| raw_view(raws@[i])) =~= heads(before));
        }
        Some(outcome)
    }

    /// All the outcomes that are left, in row order. The session must have a
    /// field: a row without fields is yielded without end.
    pub fn collect(self) -> (all: Vec<Result<Row<'a>, RowError>>)
        requires
            self.rests().len() > 0,
        ensures
            outcomes_of(all@) == outcomes(self.bound(), self.rests()),
    {
        let ghost bound = self.bound();
        let ghost start = self.rests();
        let mut rows = self;
        let mut all: Vec<Result<Row<'a>, RowError>> = Vec::new();
        proof {
            assert(rows.rests() =~= skipped(start, 0)) by {
                assert forall|i: int| 0 <= i < start.len() implies start[i] =~= start[i].skip(0) by {}
            }
        }
        loop
            invariant_except_break
                rows.bound() == bound,
                rows.rests() == skipped(start, all@.len() as int),
                all@.len() <= row_count(start),
            invariant
                start.len() > 0,
                forall|k: int| 0 <= k < all@.len() ==> outcome_of(#[trigger] all@[k]) == outcomes(bound, start)[k],
            ensures
                all@.len() == row_count(start),
            decreases row_count(start) - all@.len(),
        {
            let ghost done = all@.len() as int;
            let ghost rests = rows.rests();
            proof {
                lemma_first_exhausted(rests, 0);
                lemma_row_count(start);
            }
            match rows.next() {
                Some(outcome) => {
                    proof {
                        assert forall|i: int| 0 <= i < start.len() implies done < (#[trigger] start[i]).len() by {
                            assert(rests[i].len() > 0);
                        }
                        assert(heads(rests) =~= raws_at(start, done));
                        assert(rows.rests() =~= skipped(start, done + 1)) by {
                            assert forall|i: int| 0 <= i < start.len() implies start[i].skip(done).skip(1)
                                =~= start[i].skip(done + 1) by {}
                        }
                    }
                    all.push(outcome);
                },
                None => {
                    proof {
                        let k = first_exhausted(rests, 0);
                        assert(rests[k].len() == 0);
                        assert(start[k].len() <= done);
                    }
                    break ;
                },
            }
        }
        proof {
            assert(outcomes_of(all@) =~= outcomes(bound, start));
        }
        all
    }
}

} // verus!

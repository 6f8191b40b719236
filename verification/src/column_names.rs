use vstd::prelude::*;

verus! {

/// One override: the field `field` is read from the column `column`.
#[derive(Clone, Debug, PartialEq, Eq)]
pub struct ColumnOverride {
    pub field: String,
    pub column: String,
}

/// What a `ColumnOverride` holds.
pub struct OverrideView {
    pub field: Seq<char>,
    pub column: Seq<char>,
}

impl View for ColumnOverride {
    type V = OverrideView;

    open spec fn view(&self) -> OverrideView {
        OverrideView { field: self.field@, column: self.column@ }
    }
}

/// The column that a list of overrides sets for `field`, if any: that of the
/// last override that names the field.
pub open spec fn lookup(entries: Seq<OverrideView>, field: Seq<char>) -> Option<Seq<char>>
    decreases entries.len(),
{
    if entries.len() == 0 {
        None
    } else if entries.last().field == field {
        Some(entries.last().column)
    } else {
        lookup(entries.drop_last(), field)
    }
}

/// The mapping that a list of overrides comes to, from field name to column
/// name: a later override of a field replaces an earlier one.
pub open spec fn names_of(entries: Seq<OverrideView>) -> Map<Seq<char>, Seq<char>> {
    Map::new(|field: Seq<char>| lookup(entries, field) is Some, |field: Seq<char>| lookup(entries, field)->0)
}

/// One more override sets its field and leaves the others as they were.
pub proof fn lemma_names_of_push(entries: Seq<OverrideView>, last: OverrideView)
    ensures
        names_of(entries.push(last)) == names_of(entries).insert(last.field, last.column),
{
    assert(entries.push(last).drop_last() =~= entries);
    assert(names_of(entries.push(last)) =~= names_of(entries).insert(last.field, last.column));
}

/// The column names that a caller sets for the fields of a row, one call per
/// field. A field that is set more than once keeps the name set last.
#[derive(Clone, Debug, PartialEq, Eq)]
pub struct ColumnNameBuilder {
    entries: Vec<ColumnOverride>,
}

/// A mapping from field name to column name, as a builder has built it.
#[derive(Clone, Debug, PartialEq, Eq)]
pub struct ColumnNames {
    entries: Vec<ColumnOverride>,
}

/// What a list of overrides holds.
pub open spec fn entries_view(entries: Seq<ColumnOverride>) -> Seq<OverrideView> {
    Seq::new(entries.len(), |i: int| entries[i]@)
}

impl View for ColumnNameBuilder {
    type V = Map<Seq<char>, Seq<char>>;

    closed spec fn view(&self) -> Map<Seq<char>, Seq<char>> {
        names_of(entries_view(self.entries@))
    }
}

impl View for ColumnNames {
    type V = Map<Seq<char>, Seq<char>>;

    closed spec fn view(&self) -> Map<Seq<char>, Seq<char>> {
        names_of(entries_view(self.entries@))
    }
}

impl ColumnNameBuilder {
    /// A builder in which no field is set.
    pub fn new() -> (builder: Self)
        ensures
            builder@ == Map::<Seq<char>, Seq<char>>::empty(),
    {
        ColumnNameBuilder { entries: Vec::new() }
    }

    /// Sets the column that `field` is read from.
    pub fn column(self, field: &str, column_name: &str) -> (builder: Self)
        ensures
            builder@ == self@.insert(field@, column_name@),
    {
        let mut entries = self.entries;
        let ghost before = entries_view(entries@);
        entries.push(ColumnOverride { field: field.to_owned(), column: column_name.to_owned() });
        proof {
            assert(entries_view(entries@) =~= before.push(entries@.last()@));
            lemma_names_of_push(before, entries@.last()@);
        }
        ColumnNameBuilder { entries }
    }

    /// The mapping that was set.
    pub fn build(self) -> (columns: ColumnNames)
        ensures
            columns@ == self@,
    {
        ColumnNames { entries: self.entries }
    }
}

impl ColumnNames {
    /// The mapping in which no field is set.
    pub fn new() -> (columns: Self)
        ensures
            columns@ == Map::<Seq<char>, Seq<char>>::empty(),
    {
        ColumnNames { entries: Vec::new() }
    }

    /// The column name set for `field`, if one is.
    pub fn get(&self, field: &str) -> (column: Option<&str>)
        ensures
            match column {
                Some(name) => self@.dom().contains(field@) && self@[field@] == name@,
                None => !self@.dom().contains(field@),
            },
    {
        let key = field.to_owned();
        let ghost views = entries_view(self.entries@);
        let mut i: usize = self.entries.len();
        proof {
            assert(views.take(i as int) =~= views);
        }
        while i > 0
            invariant
                i <= self.entries.len(),
                key@ == field@,
                views == entries_view(self.entries@),
                lookup(views, field@) == lookup(views.take(i as int), field@),
            decreases i,
        {
            proof {
                assert(views.take(i as int).drop_last() =~= views.take(i - 1));
                assert(views.take(i as int).last() == self.entries@[i - 1]@);
            }
            i = i - 1;
            if self.entries[i].field == key {
                return Some(self.entries[i].column.as_str());
            }
        }
        None
    }
}

} // verus!

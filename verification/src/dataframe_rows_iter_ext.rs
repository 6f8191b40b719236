use vstd::prelude::*;
use polars::prelude::DataFrame;
use crate::column_names::ColumnNameBuilder;
use crate::column_names::ColumnNames;
use crate::error::RowError;
use crate::from_dataframe_row::bound_to;
use crate::from_dataframe_row::FromDataFrameRow;
use crate::rows_iter::RowsIter;

verus! {

/// The two ways to open a row sequence on a table.
pub trait DataframeRowsIterExt<'a> {
    /// The table that the row sequence is opened on.
    spec fn table(&self) -> DataFrame;

    /// Opens the sequence of the rows declared by `shape`, each field read
    /// from its declared column. It fails at once if a column is missing or
    /// of an incompatible element type.
    fn rows_iter(&'a self, shape: &FromDataFrameRow) -> (res: Result<RowsIter<'a>, RowError>)
        ensures
            bound_to(res, self.table(), shape@, Map::empty()),
    ;

    /// As `rows_iter`, with the columns that `build_fn` sets in the builder
    /// it is handed; a field that it does not set is read from its declared
    /// column.
    fn rows_iter_with_columns<F: FnOnce(ColumnNameBuilder) -> ColumnNameBuilder>(
        &'a self,
        shape: &FromDataFrameRow,
        build_fn: F,
    ) -> (res: Result<RowsIter<'a>, RowError>)
        requires
            forall|builder: ColumnNameBuilder|
                builder@ == Map::<Seq<char>, Seq<char>>::empty() ==> build_fn.requires((builder,)),
        ensures
            exists|builder: ColumnNameBuilder, built: ColumnNameBuilder|
                builder@ == Map::<Seq<char>, Seq<char>>::empty() && build_fn.ensures((builder,), built)
                    && bound_to(res, self.table(), shape@, built@),
    ;
}

impl<'a> DataframeRowsIterExt<'a> for DataFrame {
    open spec fn table(&self) -> DataFrame {
        *self
    }

    fn rows_iter(&'a self, shape: &FromDataFrameRow) -> (res: Result<RowsIter<'a>, RowError>) {
        shape.from_dataframe(self, &ColumnNames::new())
    }

    fn rows_iter_with_columns<F: FnOnce(ColumnNameBuilder) -> ColumnNameBuilder>(
        &'a self,
        shape: &FromDataFrameRow,
        build_fn: F,
    ) -> (res: Result<RowsIter<'a>, RowError>) {
        let builder = shape.create_builder();
        let built = build_fn(builder);
        let columns = built.build();
        shape.from_dataframe(self, &columns)
    }
}

} // verus!

use vstd::prelude::*;
use crate::frame::cursor_next;
use crate::frame::cursor_rest;
use crate::frame::RawCursor;
use crate::value::raw_view;
use crate::value::RawValue;
use crate::value::RawView;

verus! {

/// A single-pass, forward-only cursor over one column. It hands out one
/// optional raw value per row, in row order, and after the last one nothing,
/// however often it is asked.
pub struct ColumnCursor<'a> {
    raw: RawCursor<'a>,
    done: bool,
}

impl<'a> ColumnCursor<'a> {
    /// The values that the cursor has yet to hand out, in order; `None` is a
    /// null at that row.
    pub closed spec fn rest(&self) -> Seq<Option<RawView>> {
        if self.done {
            Seq::empty()
        } else {
            cursor_rest(self.raw)
        }
    }

    /// A cursor that hands out what `raw` has yet to hand out.
    pub(crate) fn new(raw: RawCursor<'a>) -> (cursor: Self)
        ensures
            cursor.rest() == cursor_rest(raw),
    {
        ColumnCursor { raw, done: false }
    }

    /// Hands out the next value: `Some(None)` for a null, `None` when the
    /// column is exhausted. An exhausted cursor stays exhausted.
    pub fn next(&mut self) -> (item: Option<Option<RawValue<'a>>>)
        ensures
            old(self).rest().len() == 0 ==> item is None && final(self).rest() == old(self).rest(),
            old(self).rest().len() > 0 ==> item is Some && final(self).rest() == old(self).rest().skip(1),
            item matches Some(raw) ==> raw_view(raw) == old(self).rest()[0],
    {
        if self.done {
            return None;
        }
        let item = cursor_next(&mut self.raw);
        if item.is_none() {
            self.done = true;
        }
        item
    }
}

} // verus!

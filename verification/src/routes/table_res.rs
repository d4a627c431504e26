use vstd::prelude::*;

use super::types::TableRes;

verus! {

/// The entries that could be read, in order: the `Some` values of `items`.
pub open spec fn parsed_entries<T>(items: Seq<Option<T>>) -> Seq<T>
    decreases items.len(),
{
    if items.len() == 0 {
        Seq::empty()
    } else {
        let rest = parsed_entries(items.drop_last());
        match items.last() {
            Some(v) => rest.push(v),
            None => rest,
        }
    }
}

/// Whether a redis reply of `reply_len` items holds a table: the total and the rows
/// need two items; a shorter reply stands for the empty table.
pub fn reply_holds_table(reply_len: usize) -> (res: bool)
    ensures
        res == (reply_len >= 2),
{
    reply_len >= 2
}

impl<T> TableRes<T> {
    /// The table with no rows and a total of zero, which stands for a reply too short to
    /// hold a table.
    pub fn empty() -> (res: TableRes<T>)
        ensures
            res.total == 0,
            res.entries@.len() == 0,
    {
        TableRes { total: 0, entries: Vec::new() }
    }

    /// The table with the given total, holding the rows that could be read and
    /// skipping the others, in order.
    pub fn from_items(total: usize, items: Vec<Option<T>>) -> (res: TableRes<T>)
        ensures
            res.total == total,
            res.entries@ == parsed_entries(items@),
    {
        let ghost all = items@;
        let mut entries: Vec<T> = Vec::new();
        for item in it: items
            invariant
                it.seq() == all,
                entries@ == parsed_entries(all.take(it.index() as int)),
        {
            proof {
                assert(all.take(it.index() + 1).drop_last() =~= all.take(it.index() as int));
            }
            match item {
                Some(v) => entries.push(v),
                None => {},
            }
        }
        proof {
            assert(all.take(all.len() as int) =~= all);
        }
        TableRes { total, entries }
    }
}

} // verus!

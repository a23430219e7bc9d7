//! The accumulated outcome of one or more executed statements.

use vstd::prelude::*;

verus! {

/// Rows affected and last-insert-row-id accumulated across sequential
/// statement executions.
#[derive(Debug, Clone, Copy, PartialEq, Eq, Structural)]
pub struct D1QueryResult {
    pub rows_affected: usize,
    pub last_insert_row_id: i64,
}

/// The total of rows affected over a sequence of results.
pub open spec fn spec_sum_rows(items: Seq<D1QueryResult>) -> int
    decreases items.len(),
{
    if items.len() == 0 {
        0
    } else {
        spec_sum_rows(items.drop_last()) + items.last().rows_affected
    }
}

/// Partial sums never exceed the whole sum.
pub proof fn lemma_sum_rows_take_le(items: Seq<D1QueryResult>, i: int)
    requires
        0 <= i <= items.len(),
    ensures
        spec_sum_rows(items.take(i)) <= spec_sum_rows(items),
    decreases items.len() - i,
{
    if i < items.len() {
        lemma_sum_rows_take_le(items, i + 1);
        assert(items.take(i + 1).drop_last() =~= items.take(i));
        assert(items.take(i + 1).last() == items[i]);
    } else {
        assert(items.take(i) =~= items);
    }
}

impl Default for D1QueryResult {
    /// An empty result: nothing affected, no insert id.
    fn default() -> (r: Self)
        ensures
            r.rows_affected == 0,
            r.last_insert_row_id == 0,
    {
        D1QueryResult { rows_affected: 0, last_insert_row_id: 0 }
    }
}

impl D1QueryResult {
    /// Folds one later result in: rows affected are summed, the
    /// last-insert-row-id is overwritten by the more recent value,
    /// mirroring sequential statement execution.
    pub fn merge(&mut self, other: &D1QueryResult)
        requires
            old(self).rows_affected + other.rows_affected <= usize::MAX,
        ensures
            final(self).rows_affected == old(self).rows_affected + other.rows_affected,
            final(self).last_insert_row_id == other.last_insert_row_id,
    {
        self.rows_affected = self.rows_affected + other.rows_affected;
        self.last_insert_row_id = other.last_insert_row_id;
    }

    /// Folds a sequence of later results in, in order.
    pub fn extend(&mut self, items: &Vec<D1QueryResult>)
        requires
            old(self).rows_affected + spec_sum_rows(items@) <= usize::MAX,
        ensures
            final(self).rows_affected == old(self).rows_affected + spec_sum_rows(items@),
            final(self).last_insert_row_id == if items@.len() == 0 {
                old(self).last_insert_row_id
            } else {
                items@.last().last_insert_row_id
            },
    {
        let n = items.len();
        let mut i: usize = 0;
        proof {
            assert(items@.take(0) =~= Seq::<D1QueryResult>::empty());
        }
        while i < n
            invariant
                i <= n,
                n == items@.len(),
                old(self).rows_affected + spec_sum_rows(items@) <= usize::MAX,
                self.rows_affected == old(self).rows_affected + spec_sum_rows(
                    items@.take(i as int),
                ),
                self.last_insert_row_id == if i == 0 {
                    old(self).last_insert_row_id
                } else {
                    items@[i - 1].last_insert_row_id
                },
            decreases n - i,
        {
            proof {
                lemma_sum_rows_take_le(items@, i + 1);
                assert(items@.take(i + 1).drop_last() =~= items@.take(i as int));
                assert(items@.take(i + 1).last() == items@[i as int]);
                lemma_sum_rows_nonneg(items@.take(i as int));
            }
            let it = items[i];
            self.merge(&it);
            i = i + 1;
        }
        proof {
            assert(items@.take(n as int) =~= items@);
        }
    }
}

/// Sums of row counts are non-negative.
pub proof fn lemma_sum_rows_nonneg(items: Seq<D1QueryResult>)
    ensures
        spec_sum_rows(items) >= 0,
    decreases items.len(),
{
    if items.len() > 0 {
        lemma_sum_rows_nonneg(items.drop_last());
    }
}

} // verus!

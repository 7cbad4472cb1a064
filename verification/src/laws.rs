//! What holds of the array's operations taken together, stated over the
//! model that their contracts speak of.

use crate::error::ArrayError;
use crate::model::ArrayModel;
use vstd::prelude::*;

verus! {

/// Appending a sequence of values keeps the elements held before and puts
/// the values after them, in order.
pub proof fn lemma_appended_all_items(m: ArrayModel, values: Seq<i64>)
    ensures
        m.appended_all(values).open == m.open,
        m.appended_all(values).items == m.items + values,
    decreases values.len(),
{
    if values.len() == 0 {
        assert(m.items + values =~= m.items);
    } else {
        lemma_appended_all_items(m, values.drop_last());
        assert((m.items + values.drop_last()).push(values.last()) =~= m.items + values);
    }
}

/// After any sequence of values has been appended to a new array, the length
/// is the number of values, and reading at `i` gives the value that was
/// appended as the `i`-th.
pub proof fn law_appended_values_read_back(values: Seq<i64>, i: usize)
    requires
        ArrayModel::fresh().appended_all(values).wf(),
    ensures
        ArrayModel::fresh().appended_all(values).len() == Ok::<usize, ArrayError>(
            values.len() as usize,
        ),
        values.len() as usize == values.len(),
        i < values.len() ==> ArrayModel::fresh().appended_all(values).index(i) == Ok::<
            i64,
            ArrayError,
        >(values[i as int]),
{
    lemma_appended_all_items(ArrayModel::fresh(), values);
    assert(Seq::<i64>::empty() + values =~= values);
}

/// An append changes no element that the array already held: reading any
/// index below the old length gives the same value after as before, whether
/// or not the append made the storage grow.
pub proof fn law_append_keeps_elements(m: ArrayModel, value: i64, i: usize)
    requires
        m.wf(),
        i < m.items.len(),
    ensures
        m.appended(value).index(i) == m.index(i),
        m.appended(value).items.take(m.items.len() as int) == m.items,
{
    assert(m.appended(value).items.take(m.items.len() as int) =~= m.items);
}

/// Reading an open array at an index that is not below its length fails
/// with [`ArrayError::Bounds`]: no value comes back.
pub proof fn law_index_past_end_is_refused(m: ArrayModel, i: usize)
    requires
        m.open,
        i >= m.items.len(),
    ensures
        m.index(i) == Err::<i64, ArrayError>(ArrayError::Bounds),
{
}

/// Once an array is released, reading, asking for the length and appending
/// all fail with [`ArrayError::Closed`], and releasing it again changes
/// nothing.
pub proof fn law_released_array_is_closed(m: ArrayModel, i: usize, capacity: nat)
    ensures
        m.released().wf(),
        m.released().index(i) == Err::<i64, ArrayError>(ArrayError::Closed),
        m.released().len() == Err::<usize, ArrayError>(ArrayError::Closed),
        m.released().append_refusal(capacity) == Some(ArrayError::Closed),
        m.released().released() == m.released(),
{
}

/// A value that was just appended is read back unchanged at the last index.
pub proof fn law_append_then_read_last(m: ArrayModel, value: i64, capacity: nat)
    requires
        m.wf(),
        m.append_refusal(capacity) is None,
    ensures
        m.appended(value).wf(),
        m.appended(value).len() == Ok::<usize, ArrayError>((m.items.len() + 1) as usize),
        m.appended(value).index(m.items.len() as usize) == Ok::<i64, ArrayError>(value),
{
}

} // verus!

//! The mathematical model of a persistent array: what it is, seen from
//! outside, and what each operation makes of it.

use crate::error::ArrayError;
use vstd::prelude::*;

verus! {

/// The size of one element in bytes.
pub const ELEMENT_BYTES: usize = 8;

/// The largest number of elements whose bytes still fit in one addressable
/// region. No array is constructed with more slots, and none holds more
/// elements.
pub open spec fn max_capacity() -> int {
    isize::MAX / 8
}

/// The largest length at which a full array can still grow. Storage grows
/// by doubling, so this is half of [`max_capacity`]: doubled from here or
/// below, the region stays addressable.
pub open spec fn max_len() -> int {
    isize::MAX / 16
}

/// [`max_capacity`], computed.
pub fn capacity_limit() -> (n: usize)
    ensures
        n == max_capacity(),
{
    (isize::MAX as usize) / ELEMENT_BYTES
}

/// [`max_len`], computed.
pub fn len_limit() -> (n: usize)
    ensures
        n == max_len(),
{
    (isize::MAX as usize) / (2 * ELEMENT_BYTES)
}

/// A persistent array as its users see it: whether it is open, and the
/// elements it holds, in the order in which they were appended.
pub struct ArrayModel {
    pub open: bool,
    pub items: Seq<i64>,
}

impl ArrayModel {
    /// A newly constructed array: open and empty.
    pub open spec fn fresh() -> ArrayModel {
        ArrayModel { open: true, items: Seq::empty() }
    }

    /// What holds of every array: it has at most [`max_capacity`] elements,
    /// and none once it is released.
    pub open spec fn wf(self) -> bool {
        &&& self.items.len() <= max_capacity()
        &&& !self.open ==> self.items.len() == 0
    }

    /// The result of asking for the length.
    pub open spec fn len(self) -> Result<usize, ArrayError> {
        if self.open {
            Ok(self.items.len() as usize)
        } else {
            Err(ArrayError::Closed)
        }
    }

    /// The result of reading the element at index `i`.
    pub open spec fn index(self, i: usize) -> Result<i64, ArrayError> {
        if !self.open {
            Err(ArrayError::Closed)
        } else if i >= self.items.len() {
            Err(ArrayError::Bounds)
        } else {
            Ok(self.items[i as int])
        }
    }

    /// Whether an append has to grow the storage first: no slot is free.
    pub open spec fn is_full(self, capacity: nat) -> bool {
        self.items.len() >= capacity
    }

    /// The error with which an append is turned away before storage is
    /// touched, if there is one, for an array that has `capacity` slots
    /// reserved.
    ///
    /// A released array is closed. An open one refuses for want of capacity
    /// in two cases: it already holds as many elements as can be addressed,
    /// or it is full and so long that the doubled region could not be.
    pub open spec fn append_refusal(self, capacity: nat) -> Option<ArrayError> {
        if !self.open {
            Some(ArrayError::Closed)
        } else if self.items.len() >= max_capacity() {
            Some(ArrayError::Capacity)
        } else if self.is_full(capacity) && self.items.len() > max_len() {
            Some(ArrayError::Capacity)
        } else {
            None
        }
    }

    /// The array after `value` has been appended.
    pub open spec fn appended(self, value: i64) -> ArrayModel {
        ArrayModel { open: self.open, items: self.items.push(value) }
    }

    /// The array after each of `values` has been appended, first to last.
    pub open spec fn appended_all(self, values: Seq<i64>) -> ArrayModel
        decreases values.len(),
    {
        if values.len() == 0 {
            self
        } else {
            self.appended_all(values.drop_last()).appended(values.last())
        }
    }

    /// The array after it has been released: closed, with nothing to read.
    pub open spec fn released(self) -> ArrayModel {
        ArrayModel { open: false, items: Seq::empty() }
    }
}

} // verus!

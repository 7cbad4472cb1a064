//! The persistent array: append, indexed read, length and release over a
//! mapped file.

use crate::error::{io_outcome, ArrayError};
use crate::mapped::{
    mapped_capacity, mapped_contents, mapped_get, mapped_len, mapped_push, mapped_slots,
    mapped_with_capacity, MappedVec,
};
use crate::model::{capacity_limit, len_limit, max_capacity, ArrayModel};
use vstd::prelude::*;

verus! {

/// A growable array of `i64` whose elements live in a file mapped into
/// memory rather than on the heap.
///
/// An array is open from its construction until it is released, and closed
/// from then on. While it is open it owns the mapping and the file behind
/// it; both go when the array is released or dropped, whichever comes first.
pub struct PersistentArray {
    store: Option<MappedVec>,
}

impl View for PersistentArray {
    type V = ArrayModel;

    closed spec fn view(&self) -> ArrayModel {
        match self.store {
            Some(v) => ArrayModel { open: true, items: mapped_contents(v) },
            None => ArrayModel { open: false, items: Seq::empty() },
        }
    }
}

impl PersistentArray {
    /// The number of element slots reserved in the mapped region; none once
    /// the array is released.
    pub closed spec fn capacity(&self) -> nat {
        match self.store {
            Some(v) => mapped_capacity(v),
            None => 0,
        }
    }

    /// What holds of every array at every moment: an open array has at
    /// least one slot and never more elements than slots, a released one
    /// has neither.
    #[verifier::type_invariant]
    pub open spec fn well_formed(self) -> bool {
        &&& self@.wf()
        &&& self@.open ==> 1 <= self.capacity() && self@.items.len() <= self.capacity()
        &&& !self@.open ==> self.capacity() == 0
    }

    /// Constructs an open, empty array over a new backing file with room for
    /// `initial_capacity` elements. An array always has at least one slot:
    /// where 0 is asked for, one is reserved.
    ///
    /// A capacity whose byte size cannot be addressed is refused with
    /// [`ArrayError::Capacity`] before any file is made. Otherwise the
    /// outcome is that of creating and mapping the file.
    pub fn with_capacity(initial_capacity: usize) -> (r: Result<PersistentArray, ArrayError>)
        ensures
            match r {
                Ok(array) => {
                    &&& initial_capacity <= max_capacity()
                    &&& array@ == ArrayModel::fresh()
                    &&& array.capacity() == if initial_capacity == 0 {
                        1
                    } else {
                        initial_capacity as nat
                    }
                },
                Err(e) => if initial_capacity > max_capacity() {
                    e == ArrayError::Capacity
                } else {
                    e == ArrayError::Io
                },
            },
    {
        if initial_capacity > capacity_limit() {
            return Err(ArrayError::Capacity);
        }
        let slots: usize = if initial_capacity == 0 {
            1
        } else {
            initial_capacity
        };
        match io_outcome(mapped_with_capacity(slots)) {
            Ok(v) => Ok(PersistentArray { store: Some(v) }),
            Err(e) => Err(e),
        }
    }

    /// The number of elements in the array.
    pub fn len(&self) -> (r: Result<usize, ArrayError>)
        ensures
            r == self@.len(),
    {
        proof {
            use_type_invariant(self);
        }
        match &self.store {
            Some(v) => Ok(mapped_len(v)),
            None => Err(ArrayError::Closed),
        }
    }

    /// The number of element slots currently reserved in the mapped region.
    pub fn reserved(&self) -> (r: Result<usize, ArrayError>)
        ensures
            match r {
                Ok(slots) => self@.open && slots == self.capacity(),
                Err(e) => !self@.open && e == ArrayError::Closed,
            },
    {
        match &self.store {
            Some(v) => Ok(mapped_slots(v)),
            None => Err(ArrayError::Closed),
        }
    }

    /// Reads the element at index `i`, straight from the mapped region.
    pub fn index(&self, i: usize) -> (r: Result<i64, ArrayError>)
        ensures
            r == self@.index(i),
    {
        proof {
            use_type_invariant(self);
        }
        match &self.store {
            Some(v) => {
                if i < mapped_len(v) {
                    Ok(mapped_get(v, i))
                } else {
                    Err(ArrayError::Bounds)
                }
            },
            None => Err(ArrayError::Closed),
        }
    }

    /// Appends `value` after the elements already held.
    ///
    /// An append either commits the element and counts it, or fails and
    /// leaves the array as it was. While a slot is free the append writes in
    /// place and cannot fail. A full array grows first, by doubling, and the
    /// elements held keep their values through it; only there can storage
    /// fail. The capacity never shrinks. The write goes to the shared
    /// mapping and reaches the file when the system writes the pages back;
    /// nothing is flushed per append.
    pub fn append(&mut self, value: i64) -> (r: Result<(), ArrayError>)
        ensures
            final(self).capacity() >= old(self).capacity(),
            !old(self)@.is_full(old(self).capacity()) ==> final(self).capacity() == old(
                self,
            ).capacity(),
            match r {
                Ok(()) => {
                    &&& old(self)@.append_refusal(old(self).capacity()) is None
                    &&& final(self)@ == old(self)@.appended(value)
                },
                Err(e) => {
                    &&& final(self)@ == old(self)@
                    &&& final(self).capacity() == old(self).capacity()
                    &&& match old(self)@.append_refusal(old(self).capacity()) {
                        Some(refusal) => e == refusal,
                        None => e == ArrayError::Io && old(self)@.is_full(old(self).capacity()),
                    }
                },
            },
    {
        proof {
            use_type_invariant(&*self);
        }
        let mut store: Option<MappedVec> = None;
        std::mem::swap(&mut store, &mut self.store);
        match store {
            None => Err(ArrayError::Closed),
            Some(mut v) => {
                let len = mapped_len(&v);
                let full = len >= mapped_slots(&v);
                if len >= capacity_limit() || (full && len > len_limit()) {
                    self.store = Some(v);
                    Err(ArrayError::Capacity)
                } else {
                    let pushed = mapped_push(&mut v, value);
                    self.store = Some(v);
                    io_outcome(pushed)
                }
            },
        }
    }

    /// Releases the array: the region is unmapped, the backing file is
    /// closed and removed, and the array is closed from now on. Releasing a
    /// closed array changes nothing.
    pub fn release(&mut self)
        ensures
            final(self)@ == old(self)@.released(),
            final(self).capacity() == 0,
    {
        self.store = None;
    }
}

} // verus!

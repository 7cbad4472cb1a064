//! The boundary to the `mmap_vec` crate: the mapped vector that stores the
//! elements, and the operations the array needs from it.
//!
//! Nothing in this file is proved. Each function states what the called
//! function of `mmap_vec` does, as its source shows it.

use mmap_vec::MmapVec;
use vstd::prelude::*;

verus! {

/// `std::io::Error`, carried from the storage to [`crate::error::io_outcome`]
/// and never looked into.
#[verifier::external_type_specification]
#[verifier::external_body]
pub struct ExIoError(std::io::Error);

/// A vector of `i64` kept by `mmap_vec::MmapVec` in a file that is mapped
/// into memory. Dropping it unmaps the region and removes the file.
#[verifier::external_body]
pub struct MappedVec {
    inner: MmapVec<i64>,
}

/// The elements that a mapped vector holds, in index order: the slice that
/// `MmapVec` dereferences to.
pub uninterp spec fn mapped_contents(v: MappedVec) -> Seq<i64>;

/// The number of element slots in the region that a mapped vector has
/// mapped: what `MmapVec::capacity` returns.
pub uninterp spec fn mapped_capacity(v: MappedVec) -> nat;

/// Calls `MmapVec::with_capacity`, which creates a file for `capacity`
/// elements and maps it. The vector that comes back is empty and has
/// exactly the capacity asked for.
///
/// Capacity 0 is left out: for it the call maps nothing and keeps a null
/// address, from which the slice behind the other operations must not be
/// made. The call multiplies `capacity` by the element size with plain
/// arithmetic, so capacities whose byte size does not fit in `usize` are
/// left out too.
#[verifier::external_body]
pub(crate) fn mapped_with_capacity(capacity: usize) -> (r: Result<MappedVec, std::io::Error>)
    requires
        1 <= capacity,
        capacity * 8 <= usize::MAX,
    ensures
        r matches Ok(v) ==> mapped_contents(v) == Seq::<i64>::empty() && mapped_capacity(v)
            == capacity,
{
    match MmapVec::with_capacity(capacity) {
        Ok(inner) => Ok(MappedVec { inner }),
        Err(e) => Err(e),
    }
}

/// Calls `MmapVec::push`. On success the value stands after the elements
/// held before, which are unchanged, also where the vector had to map a
/// larger region of its file. On failure the vector holds what it held.
///
/// A vector with a free slot writes in place: it cannot fail and keeps its
/// capacity. Only a full vector touches the file, and where that fails the
/// capacity stays too. The capacity never shrinks, and the length never
/// passes it.
///
/// A full vector grows by its length or by one page, whichever is more,
/// rounded up to whole pages, and computes the new byte size with plain
/// arithmetic. The bound on the length of a full vector keeps that size
/// within `usize` for any page size from one element up to a quarter of the
/// address space.
#[verifier::external_body]
pub(crate) fn mapped_push(v: &mut MappedVec, value: i64) -> (r: Result<(), std::io::Error>)
    requires
        1 <= mapped_capacity(*old(v)),
        mapped_contents(*old(v)).len() < mapped_capacity(*old(v)) || mapped_contents(
            *old(v),
        ).len() * 16 <= isize::MAX,
    ensures
        r is Ok ==> mapped_contents(*final(v)) == mapped_contents(*old(v)).push(value),
        r is Err ==> mapped_contents(*final(v)) == mapped_contents(*old(v)),
        mapped_contents(*old(v)).len() < mapped_capacity(*old(v)) ==> r is Ok,
        mapped_contents(*old(v)).len() < mapped_capacity(*old(v)) || r is Err ==> mapped_capacity(
            *final(v),
        ) == mapped_capacity(*old(v)),
        mapped_capacity(*final(v)) >= mapped_capacity(*old(v)),
        mapped_contents(*final(v)).len() <= mapped_capacity(*final(v)),
{
    v.inner.push(value)
}

/// Takes the length of the slice that `MmapVec` dereferences to: the number
/// of elements held, which is never more than the capacity. The slice is
/// made from the mapped address, so a vector that has mapped nothing is left
/// out.
#[verifier::external_body]
pub(crate) fn mapped_len(v: &MappedVec) -> (n: usize)
    requires
        1 <= mapped_capacity(*v),
    ensures
        n == mapped_contents(*v).len(),
        n <= mapped_capacity(*v),
{
    v.inner.len()
}

/// Calls `MmapVec::capacity`: the number of element slots in the mapped
/// region.
#[verifier::external_body]
pub(crate) fn mapped_slots(v: &MappedVec) -> (n: usize)
    ensures
        n == mapped_capacity(*v),
{
    v.inner.capacity()
}

/// Indexes the slice that `MmapVec` dereferences to, which panics at an index
/// that is not below the length.
#[verifier::external_body]
pub(crate) fn mapped_get(v: &MappedVec, i: usize) -> (value: i64)
    requires
        i < mapped_contents(*v).len(),
    ensures
        value == mapped_contents(*v)[i as int],
{
    v.inner[i]
}

} // verus!

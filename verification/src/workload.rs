//! The two workloads run against the array, and against a `Vec` for
//! comparison: fill with random values, then sum everything.

use crate::array::PersistentArray;
use crate::error::ArrayError;
use crate::model::{max_capacity, ArrayModel};
use crate::random::{next_i64, thread_rng};
use vstd::prelude::*;

verus! {

/// The size in bytes of the data set that the workloads fill and sum.
pub const TARGET_SIZE_BYTES: usize = 1_073_741_824;

/// The size in bytes of one integer of the data set.
pub const I64_SIZE: usize = 8;

/// The number of integers in the data set.
pub const NUM_INTEGERS: usize = TARGET_SIZE_BYTES / I64_SIZE;

/// The sum of the elements of `s`, as a mathematical integer.
pub open spec fn total(s: Seq<i64>) -> int
    decreases s.len(),
{
    if s.len() == 0 {
        0
    } else {
        total(s.drop_last()) + s.last()
    }
}

/// The sum of `n` values of type `i64` lies between `n` times the least and
/// `n` times the greatest of them.
pub proof fn lemma_total_bounds(s: Seq<i64>)
    ensures
        s.len() * i64::MIN <= total(s) <= s.len() * i64::MAX,
    decreases s.len(),
{
    if s.len() > 0 {
        lemma_total_bounds(s.drop_last());
    }
}

/// The sum of the first `i + 1` elements is the sum of the first `i` plus
/// the element at `i`.
pub proof fn lemma_total_step(s: Seq<i64>, i: int)
    requires
        0 <= i < s.len(),
    ensures
        total(s.take(i + 1)) == total(s.take(i)) + s[i],
{
    assert(s.take(i + 1).drop_last() =~= s.take(i));
}

/// Constructs the array for the data set, with exactly [`NUM_INTEGERS`]
/// slots, so that filling it never has to grow the storage.
pub fn create_mmap_vec() -> (r: Result<PersistentArray, ArrayError>)
    ensures
        match r {
            Ok(array) => array@ == ArrayModel::fresh() && array.capacity() == NUM_INTEGERS,
            Err(e) => e == ArrayError::Io,
        },
{
    PersistentArray::with_capacity(NUM_INTEGERS)
}

/// What a fill of `count` values makes of an array: `before` with `room`
/// slots becomes `after` with `room_after` slots, and `r` is returned.
///
/// Whatever the outcome, the elements held before stay where they were,
/// and the capacity does not shrink and covers the new length. On success
/// all `count` values were appended. On failure fewer were, and the error
/// is that of the append that failed, which left the array as it is now: a
/// refusal, or a failure of the storage on a full array. A fill that fits
/// in the free slots of an open array succeeds and leaves the capacity as
/// it was.
pub open spec fn fill_outcome(
    before: ArrayModel,
    room: nat,
    after: ArrayModel,
    room_after: nat,
    count: nat,
    r: Result<(), ArrayError>,
) -> bool {
    &&& after.open == before.open
    &&& before.items.len() <= after.items.len()
    &&& forall|i: int| 0 <= i < before.items.len() ==> after.items[i] == before.items[i]
    &&& room_after >= room
    &&& after.items.len() <= room_after
    &&& after.wf()
    &&& match r {
        Ok(()) => after.items.len() == before.items.len() + count,
        Err(e) => {
            &&& after.items.len() < before.items.len() + count
            &&& match after.append_refusal(room_after) {
                Some(refusal) => e == refusal,
                None => e == ArrayError::Io && after.is_full(room_after),
            }
        },
    }
    &&& before.items.len() + count <= room ==> room_after == room
    &&& before.open && before.items.len() + count <= room && before.items.len() + count
        <= max_capacity() ==> r is Ok
}

/// Appends `count` random values to `array`, stopping at the first append
/// that fails.
pub fn append_random(array: &mut PersistentArray, count: usize) -> (r: Result<(), ArrayError>)
    ensures
        fill_outcome(
            old(array)@,
            old(array).capacity(),
            final(array)@,
            final(array).capacity(),
            count as nat,
            r,
        ),
{
    proof {
        use_type_invariant(&*array);
    }
    let mut rng = thread_rng();
    let mut done: usize = 0;
    while done < count
        invariant
            done <= count,
            array.well_formed(),
            array@.open == old(array)@.open,
            array@.items.len() == old(array)@.items.len() + done,
            forall|i: int| 0 <= i < old(array)@.items.len() ==> array@.items[i] == old(array)@.items[i],
            array.capacity() >= old(array).capacity(),
            old(array)@.items.len() + count <= old(array).capacity() ==> array.capacity() == old(
                array,
            ).capacity(),
        decreases count - done,
    {
        let value = next_i64(&mut rng);
        match array.append(value) {
            Ok(()) => {},
            Err(e) => {
                return Err(e);
            },
        }
        proof {
            use_type_invariant(&*array);
        }
        done += 1;
    }
    Ok(())
}

/// Fills `array` with the data set: [`NUM_INTEGERS`] random values.
pub fn generate_random_numbers(array: &mut PersistentArray) -> (r: Result<(), ArrayError>)
    ensures
        fill_outcome(
            old(array)@,
            old(array).capacity(),
            final(array)@,
            final(array).capacity(),
            NUM_INTEGERS as nat,
            r,
        ),
{
    append_random(array, NUM_INTEGERS)
}

/// Sums the elements of `array`, read in increasing index order.
///
/// The accumulator has 128 bits and adds with wrapping, but it never wraps:
/// the sum of as many `i64` as an array can hold fits, so the result is the
/// exact sum.
pub fn sum_numbers(array: &PersistentArray) -> (r: Result<i128, ArrayError>)
    ensures
        match r {
            Ok(sum) => array@.open && sum == total(array@.items),
            Err(e) => !array@.open && e == ArrayError::Closed,
        },
{
    proof {
        use_type_invariant(array);
    }
    let mut sum: i128 = 0;
    let len = match array.len() {
        Ok(len) => len,
        Err(e) => {
            return Err(e);
        },
    };
    let mut i: usize = 0;
    while i < len
        invariant
            i <= len,
            array@.open,
            len == array@.items.len(),
            sum == total(array@.items.take(i as int)),
        decreases len - i,
    {
        let value = match array.index(i) {
            Ok(value) => value,
            Err(e) => {
                return Err(e);
            },
        };
        proof {
            lemma_total_step(array@.items, i as int);
            lemma_total_bounds(array@.items.take(i + 1));
        }
        sum = sum.wrapping_add(value as i128);
        i += 1;
    }
    assert(array@.items.take(len as int) =~= array@.items);
    Ok(sum)
}

/// Makes the heap-resident vector for the data set, with room for
/// [`NUM_INTEGERS`] elements.
pub fn create_vec() -> (v: Vec<i64>)
    ensures
        v@ == Seq::<i64>::empty(),
{
    Vec::with_capacity(NUM_INTEGERS)
}

/// Pushes `count` random values onto `vec`. The elements held before stay
/// where they were.
pub fn push_random(vec: &mut Vec<i64>, count: usize)
    ensures
        final(vec)@.len() == old(vec)@.len() + count,
        old(vec)@.is_prefix_of(final(vec)@),
{
    let mut rng = thread_rng();
    let mut done: usize = 0;
    while done < count
        invariant
            done <= count,
            vec@.len() == old(vec)@.len() + done,
            old(vec)@.is_prefix_of(vec@),
        decreases count - done,
    {
        let value = next_i64(&mut rng);
        vec.push(value);
        done += 1;
    }
}

/// Fills `vec` with the data set: [`NUM_INTEGERS`] random values.
pub fn generate_random_numbers_vec(vec: &mut Vec<i64>)
    ensures
        final(vec)@.len() == old(vec)@.len() + NUM_INTEGERS,
        old(vec)@.is_prefix_of(final(vec)@),
{
    push_random(vec, NUM_INTEGERS)
}

/// Sums the elements of `vec`, read in increasing index order.
///
/// The accumulator has 128 bits and adds with wrapping, but it never wraps:
/// the sum of as many `i64` as a vector can hold fits, so the result is the
/// exact sum.
pub fn sum_numbers_vec(vec: &Vec<i64>) -> (sum: i128)
    ensures
        sum == total(vec@),
{
    let mut sum: i128 = 0;
    let len = vec.len();
    let mut i: usize = 0;
    while i < len
        invariant
            i <= len,
            len == vec@.len(),
            sum == total(vec@.take(i as int)),
        decreases len - i,
    {
        proof {
            lemma_total_step(vec@, i as int);
            lemma_total_bounds(vec@.take(i + 1));
        }
        sum = sum.wrapping_add(vec[i] as i128);
        i += 1;
    }
    assert(vec@.take(len as int) =~= vec@);
    sum
}

} // verus!

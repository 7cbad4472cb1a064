use mmap_array::array::PersistentArray;
use mmap_array::error::{io_outcome, ArrayError};
use mmap_array::model::{capacity_limit, len_limit, ELEMENT_BYTES};

fn open(initial_capacity: usize) -> PersistentArray {
    match PersistentArray::with_capacity(initial_capacity) {
        Ok(array) => array,
        Err(e) => panic!("no backing file: {:?}", e),
    }
}

#[test]
fn new_array_is_open_and_empty() {
    let array = open(16);
    assert_eq!(array.len(), Ok(0));
    assert_eq!(array.index(0), Err(ArrayError::Bounds));
}

#[test]
fn appended_values_read_back_in_order() {
    let mut array = open(4);
    let values: Vec<i64> = (0..3000).map(|k| k * k - 1_000_000).collect();
    for v in &values {
        assert_eq!(array.append(*v), Ok(()));
    }
    assert_eq!(array.len(), Ok(values.len()));
    for (i, v) in values.iter().enumerate() {
        assert_eq!(array.index(i), Ok(*v));
    }
}

#[test]
fn index_is_not_the_position() {
    let mut array = open(0);
    assert_eq!(array.append(41), Ok(()));
    assert_eq!(array.append(42), Ok(()));
    assert_eq!(array.index(0), Ok(41));
    assert_eq!(array.index(1), Ok(42));
}

#[test]
fn index_at_or_past_length_is_bounds_error() {
    let mut array = open(8);
    assert_eq!(array.index(0), Err(ArrayError::Bounds));
    assert_eq!(array.append(1), Ok(()));
    assert_eq!(array.append(2), Ok(()));
    assert_eq!(array.index(2), Err(ArrayError::Bounds));
    assert_eq!(array.index(7), Err(ArrayError::Bounds));
    assert_eq!(array.index(usize::MAX), Err(ArrayError::Bounds));
    assert_eq!(array.len(), Ok(2));
}

#[test]
fn round_trip_of_boundary_values() {
    for e in [0i64, -1, i64::MIN, i64::MAX] {
        let mut array = open(1);
        assert_eq!(array.append(e), Ok(()));
        let last = array.len().unwrap() - 1;
        assert_eq!(array.index(last), Ok(e));
    }
    let mut array = open(0);
    for (k, e) in [0i64, -1, i64::MIN, i64::MAX].iter().enumerate() {
        assert_eq!(array.append(*e), Ok(()));
        assert_eq!(array.len(), Ok(k + 1));
        assert_eq!(array.index(k), Ok(*e));
    }
}

#[test]
fn capacity_zero_then_three_values() {
    let mut array = open(0);
    for v in [5i64, -100, 9223372036854775807] {
        assert_eq!(array.append(v), Ok(()));
    }
    assert_eq!(array.len(), Ok(3));
    assert_eq!(array.index(0), Ok(5));
    assert_eq!(array.index(1), Ok(-100));
    assert_eq!(array.index(2), Ok(9223372036854775807));
    assert_eq!(mmap_array::workload::sum_numbers(&array), Ok(9223372036854775712i128));
}

#[test]
fn growth_keeps_earlier_elements() {
    let mut array = open(2);
    assert_eq!(array.append(11), Ok(()));
    assert_eq!(array.append(-22), Ok(()));
    assert_eq!(array.append(33), Ok(()));
    assert_eq!(array.index(0), Ok(11));
    assert_eq!(array.index(1), Ok(-22));
    assert_eq!(array.index(2), Ok(33));
    assert_eq!(array.len(), Ok(3));
}

#[test]
fn repeated_growth_keeps_every_element() {
    let mut array = open(1);
    let n: usize = 20_000;
    for k in 0..n {
        assert_eq!(array.append(k as i64 * 7 - 3), Ok(()));
        assert_eq!(array.index(0), Ok(-3));
        assert_eq!(array.index(k / 2), Ok((k / 2) as i64 * 7 - 3));
    }
    for k in 0..n {
        assert_eq!(array.index(k), Ok(k as i64 * 7 - 3));
    }
}

#[test]
fn new_array_reserves_what_was_asked() {
    assert_eq!(open(2).reserved(), Ok(2));
    assert_eq!(open(1000).reserved(), Ok(1000));
    assert_eq!(open(1).reserved(), Ok(1));
}

#[test]
fn capacity_zero_reserves_one_slot() {
    let mut array = open(0);
    assert_eq!(array.reserved(), Ok(1));
    assert_eq!(array.len(), Ok(0));
    assert_eq!(array.append(17), Ok(()));
    assert_eq!(array.reserved(), Ok(1));
    assert_eq!(array.index(0), Ok(17));
}

#[test]
fn append_with_a_free_slot_keeps_capacity() {
    let mut array = open(5);
    for k in 0..5 {
        assert_eq!(array.append(k), Ok(()));
        assert_eq!(array.reserved(), Ok(5));
    }
    assert_eq!(array.len(), Ok(5));
}

#[test]
fn append_to_full_array_grows_capacity() {
    let mut array = open(2);
    assert_eq!(array.append(1), Ok(()));
    assert_eq!(array.append(2), Ok(()));
    assert_eq!(array.reserved(), Ok(2));
    assert_eq!(array.append(3), Ok(()));
    let grown = array.reserved().unwrap();
    assert!(grown >= 4);
    assert_eq!(array.len(), Ok(3));
}

#[test]
fn capacity_never_shrinks_and_covers_length() {
    let mut array = open(1);
    let mut before = array.reserved().unwrap();
    for k in 0..5000usize {
        assert_eq!(array.append(k as i64), Ok(()));
        let now = array.reserved().unwrap();
        assert!(now >= before);
        assert!(k + 1 <= now);
        before = now;
    }
}

#[test]
fn released_array_refuses_every_operation() {
    let mut array = open(4);
    assert_eq!(array.append(9), Ok(()));
    array.release();
    assert_eq!(array.len(), Err(ArrayError::Closed));
    assert_eq!(array.reserved(), Err(ArrayError::Closed));
    assert_eq!(array.index(0), Err(ArrayError::Closed));
    assert_eq!(array.index(100), Err(ArrayError::Closed));
    assert_eq!(array.append(1), Err(ArrayError::Closed));
    assert_eq!(mmap_array::workload::sum_numbers(&array), Err(ArrayError::Closed));
    assert_eq!(mmap_array::workload::append_random(&mut array, 3), Err(ArrayError::Closed));
}

#[test]
fn release_twice_is_harmless() {
    let mut array = open(4);
    array.release();
    array.release();
    assert_eq!(array.len(), Err(ArrayError::Closed));
    let mut empty = open(0);
    empty.release();
    empty.release();
    assert_eq!(empty.append(0), Err(ArrayError::Closed));
}

#[test]
fn failed_append_leaves_array_unchanged() {
    let mut array = open(2);
    assert_eq!(array.append(5), Ok(()));
    array.release();
    assert_eq!(array.append(6), Err(ArrayError::Closed));
    assert_eq!(array.len(), Err(ArrayError::Closed));
}

#[test]
fn capacity_beyond_addressable_is_capacity_error() {
    assert!(matches!(PersistentArray::with_capacity(usize::MAX), Err(ArrayError::Capacity)));
    assert!(matches!(
        PersistentArray::with_capacity(capacity_limit() + 1),
        Err(ArrayError::Capacity)
    ));
}

#[test]
fn capacity_that_storage_cannot_give_is_io_error() {
    assert!(matches!(PersistentArray::with_capacity(capacity_limit()), Err(ArrayError::Io)));
}

#[test]
fn limits_have_their_exact_values() {
    assert_eq!(ELEMENT_BYTES, 8);
    assert_eq!(capacity_limit(), isize::MAX as usize / 8);
    assert_eq!(len_limit(), isize::MAX as usize / 16);
    assert_eq!(capacity_limit() * ELEMENT_BYTES + 7, isize::MAX as usize);
    if usize::BITS == 64 {
        assert_eq!(capacity_limit() as u64, 1_152_921_504_606_846_975);
        assert_eq!(len_limit() as u64, 576_460_752_303_423_487);
    }
}

#[test]
fn io_outcome_passes_success_on() {
    assert_eq!(io_outcome::<i64>(Ok(-5)), Ok(-5));
    assert_eq!(io_outcome::<()>(Ok(())), Ok(()));
}

#[test]
fn io_outcome_turns_storage_failure_into_io() {
    let failure = std::io::Error::from(std::io::ErrorKind::PermissionDenied);
    assert_eq!(io_outcome::<i64>(Err(failure)), Err(ArrayError::Io));
    let failure = std::io::Error::from_raw_os_error(28);
    assert_eq!(io_outcome::<()>(Err(failure)), Err(ArrayError::Io));
}

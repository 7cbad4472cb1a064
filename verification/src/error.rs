//! The ways in which an operation on a persistent array can fail.

use vstd::prelude::*;

verus! {

/// Why an operation on a persistent array failed.
///
/// The set is closed: every failure of the array is one of these four.
#[derive(Clone, Copy, Debug, PartialEq, Eq, Structural)]
pub enum ArrayError {
    /// The backing file could not be created, extended or mapped. The array
    /// does not retry; the caller decides what to do.
    Io,
    /// The requested capacity, or the growth that an append may need, is
    /// beyond what can be addressed.
    Capacity,
    /// The index is not below the length.
    Bounds,
    /// The array has been released.
    Closed,
}

/// Turns the outcome of a storage operation into the array's own terms:
/// success is passed on with its value, any failure of the storage becomes
/// [`ArrayError::Io`].
pub fn io_outcome<T>(outcome: Result<T, std::io::Error>) -> (r: Result<T, ArrayError>)
    ensures
        match outcome {
            Ok(value) => r == Ok::<T, ArrayError>(value),
            Err(_) => r == Err::<T, ArrayError>(ArrayError::Io),
        },
{
    match outcome {
        Ok(value) => Ok(value),
        Err(_) => Err(ArrayError::Io),
    }
}

} // verus!

use vstd::prelude::*;

verus! {

/// Why an offset between two addresses could not be stored.
#[derive(Clone, Copy, Debug, PartialEq, Eq, Structural)]
pub enum IntegerDeltaError {
    /// The two addresses (first minus second) are farther apart than an `isize` can hold.
    Sub(usize, usize),
    /// The difference fits in an `isize` but not in the chosen offset type.
    Conversion(isize),
    /// Pointer and pointee coincide, which a non-zero offset cannot encode.
    InvalidNonZero,
}

} // verus!

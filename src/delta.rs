use vstd::prelude::*;

use crate::error::IntegerDeltaError;

verus! {

/// The byte distance from address `b` to address `a`.
pub open spec fn distance(a: usize, b: usize) -> int {
    a as int - b as int
}

/// Whether an integer fits in an `isize`.
pub open spec fn fits_word(d: int) -> bool {
    isize::MIN <= d <= isize::MAX
}

/// The outcome of measuring the offset from `b` to `a` into an offset type
/// whose range is `[lo, hi]`, and which cannot hold zero when `nonzero`.
pub open spec fn delta_outcome(a: usize, b: usize, lo: int, hi: int, nonzero: bool) -> Result<int, IntegerDeltaError> {
    let d = distance(a, b);
    if !fits_word(d) {
        Err(IntegerDeltaError::Sub(a, b))
    } else if nonzero && d == 0 {
        Err(IntegerDeltaError::InvalidNonZero)
    } else if d < lo || hi < d {
        Err(IntegerDeltaError::Conversion(d as isize))
    } else {
        Ok(d)
    }
}

/// Signed distance `a - b` as an `isize`, or `Sub` when it does not fit.
pub fn word_delta(a: usize, b: usize) -> (r: Result<isize, IntegerDeltaError>)
    ensures
        fits_word(distance(a, b)) ==> r == Ok::<isize, IntegerDeltaError>(distance(a, b) as isize),
        !fits_word(distance(a, b)) ==> r == Err::<isize, IntegerDeltaError>(IntegerDeltaError::Sub(a, b)),
{
    let wide: i128 = (a as i128) - (b as i128);
    if wide < isize::MIN as i128 || wide > isize::MAX as i128 {
        Err(IntegerDeltaError::Sub(a, b))
    } else {
        Ok(wide as isize)
    }
}

/// Offsets exactly at the bounds of the offset type are stored; one byte
/// beyond either bound, within an `isize`, is a conversion error.
pub proof fn lemma_range_boundary<I: Delta>(a: usize, b: usize)
    ensures
        fits_word(distance(a, b)) && (distance(a, b) == I::lo() || distance(a, b) == I::hi())
            ==> delta_outcome(a, b, I::lo(), I::hi(), I::nonzero()) == Ok::<int, IntegerDeltaError>(distance(a, b)),
        fits_word(distance(a, b)) && (distance(a, b) == I::lo() - 1 || distance(a, b) == I::hi() + 1)
            ==> delta_outcome(a, b, I::lo(), I::hi(), I::nonzero()) == Err::<int, IntegerDeltaError>(
            IntegerDeltaError::Conversion(distance(a, b) as isize),
        ),
{
    I::lemma_range();
}

/// A signed integer type that can store the offset of a relative pointer.
pub trait Delta: Sized + Copy {
    /// The smallest offset the type can hold.
    spec fn lo() -> int;

    /// The largest offset the type can hold.
    spec fn hi() -> int;

    /// The offset a value stands for, in bytes.
    spec fn val(self) -> int;

    /// Whether the type cannot hold a zero offset.
    spec fn nonzero() -> bool;

    proof fn lemma_range()
        ensures
            Self::lo() < 0 < Self::hi(),
    ;

    /// The offset from `b` to `a`, or why it cannot be stored.
    fn sub(a: usize, b: usize) -> (r: Result<Self, IntegerDeltaError>)
        ensures
            match (r, delta_outcome(a, b, Self::lo(), Self::hi(), Self::nonzero())) {
                (Ok(x), Ok(d)) => x.val() == d,
                (Err(e), Err(f)) => e == f,
                _ => false,
            },
    ;

    /// The offset from `b` to `a`, known beforehand to be storable.
    fn sub_unchecked(a: usize, b: usize) -> (r: Self)
        requires
            delta_outcome(a, b, Self::lo(), Self::hi(), Self::nonzero()) is Ok,
        ensures
            r.val() == distance(a, b),
    ;

    /// The address `a` moved by this offset.
    fn add(self, a: usize) -> (r: usize)
        requires
            0 <= a + self.val() <= usize::MAX,
        ensures
            r == a + self.val(),
    ;
}

/// An offset type with a sentinel meaning "no offset": zero, the pointer's own address.
pub trait Nullable: Delta {
    /// The sentinel.
    fn null() -> (r: Self)
        ensures
            r.val() == 0,
    ;

    /// Whether this offset is the sentinel.
    fn is_null(&self) -> (r: bool)
        ensures
            r == (self.val() == 0),
    ;
}

impl Delta for i8 {
    open spec fn lo() -> int {
        i8::MIN as int
    }

    open spec fn hi() -> int {
        i8::MAX as int
    }

    open spec fn val(self) -> int {
        self as int
    }

    open spec fn nonzero() -> bool {
        false
    }

    proof fn lemma_range() {
    }

    fn sub(a: usize, b: usize) -> (r: Result<Self, IntegerDeltaError>) {
        let del: isize = word_delta(a, b)?;
        if (del as i128) < (i8::MIN as i128) || (del as i128) > (i8::MAX as i128) {
            Err(IntegerDeltaError::Conversion(del))
        } else {
            Ok(del as i8)
        }
    }

    fn sub_unchecked(a: usize, b: usize) -> (r: Self) {
        let wide: i128 = (a as i128) - (b as i128);
        wide as i8
    }

    fn add(self, a: usize) -> (r: usize) {
        ((a as i128) + (self as i128)) as usize
    }
}

impl Nullable for i8 {
    fn null() -> (r: Self) {
        0
    }

    fn is_null(&self) -> (r: bool) {
        *self == 0
    }
}

impl Delta for i16 {
    open spec fn lo() -> int {
        i16::MIN as int
    }

    open spec fn hi() -> int {
        i16::MAX as int
    }

    open spec fn val(self) -> int {
        self as int
    }

    open spec fn nonzero() -> bool {
        false
    }

    proof fn lemma_range() {
    }

    fn sub(a: usize, b: usize) -> (r: Result<Self, IntegerDeltaError>) {
        let del: isize = word_delta(a, b)?;
        if (del as i128) < (i16::MIN as i128) || (del as i128) > (i16::MAX as i128) {
            Err(IntegerDeltaError::Conversion(del))
        } else {
            Ok(del as i16)
        }
    }

    fn sub_unchecked(a: usize, b: usize) -> (r: Self) {
        let wide: i128 = (a as i128) - (b as i128);
        wide as i16
    }

    fn add(self, a: usize) -> (r: usize) {
        ((a as i128) + (self as i128)) as usize
    }
}

impl Nullable for i16 {
    fn null() -> (r: Self) {
        0
    }

    fn is_null(&self) -> (r: bool) {
        *self == 0
    }
}

impl Delta for i32 {
    open spec fn lo() -> int {
        i32::MIN as int
    }

    open spec fn hi() -> int {
        i32::MAX as int
    }

    open spec fn val(self) -> int {
        self as int
    }

    open spec fn nonzero() -> bool {
        false
    }

    proof fn lemma_range() {
    }

    fn sub(a: usize, b: usize) -> (r: Result<Self, IntegerDeltaError>) {
        let del: isize = word_delta(a, b)?;
        if (del as i128) < (i32::MIN as i128) || (del as i128) > (i32::MAX as i128) {
            Err(IntegerDeltaError::Conversion(del))
        } else {
            Ok(del as i32)
        }
    }

    fn sub_unchecked(a: usize, b: usize) -> (r: Self) {
        let wide: i128 = (a as i128) - (b as i128);
        wide as i32
    }

    fn add(self, a: usize) -> (r: usize) {
        ((a as i128) + (self as i128)) as usize
    }
}

impl Nullable for i32 {
    fn null() -> (r: Self) {
        0
    }

    fn is_null(&self) -> (r: bool) {
        *self == 0
    }
}

impl Delta for i64 {
    open spec fn lo() -> int {
        i64::MIN as int
    }

    open spec fn hi() -> int {
        i64::MAX as int
    }

    open spec fn val(self) -> int {
        self as int
    }

    open spec fn nonzero() -> bool {
        false
    }

    proof fn lemma_range() {
    }

    fn sub(a: usize, b: usize) -> (r: Result<Self, IntegerDeltaError>) {
        let del: isize = word_delta(a, b)?;
        if (del as i128) < (i64::MIN as i128) || (del as i128) > (i64::MAX as i128) {
            Err(IntegerDeltaError::Conversion(del))
        } else {
            Ok(del as i64)
        }
    }

    fn sub_unchecked(a: usize, b: usize) -> (r: Self) {
        let wide: i128 = (a as i128) - (b as i128);
        wide as i64
    }

    fn add(self, a: usize) -> (r: usize) {
        ((a as i128) + (self as i128)) as usize
    }
}

impl Nullable for i64 {
    fn null() -> (r: Self) {
        0
    }

    fn is_null(&self) -> (r: bool) {
        *self == 0
    }
}

impl Delta for isize {
    open spec fn lo() -> int {
        isize::MIN as int
    }

    open spec fn hi() -> int {
        isize::MAX as int
    }

    open spec fn val(self) -> int {
        self as int
    }

    open spec fn nonzero() -> bool {
        false
    }

    proof fn lemma_range() {
    }

    fn sub(a: usize, b: usize) -> (r: Result<Self, IntegerDeltaError>) {
        let del: isize = word_delta(a, b)?;
        if (del as i128) < (isize::MIN as i128) || (del as i128) > (isize::MAX as i128) {
            Err(IntegerDeltaError::Conversion(del))
        } else {
            Ok(del as isize)
        }
    }

    fn sub_unchecked(a: usize, b: usize) -> (r: Self) {
        let wide: i128 = (a as i128) - (b as i128);
        wide as isize
    }

    fn add(self, a: usize) -> (r: usize) {
        ((a as i128) + (self as i128)) as usize
    }
}

impl Nullable for isize {
    fn null() -> (r: Self) {
        0
    }

    fn is_null(&self) -> (r: bool) {
        *self == 0
    }
}

impl Delta for i128 {
    open spec fn lo() -> int {
        i128::MIN as int
    }

    open spec fn hi() -> int {
        i128::MAX as int
    }

    open spec fn val(self) -> int {
        self as int
    }

    open spec fn nonzero() -> bool {
        false
    }

    proof fn lemma_range() {
    }

    fn sub(a: usize, b: usize) -> (r: Result<Self, IntegerDeltaError>) {
        // every `isize` fits in an `i128`
        let del: isize = word_delta(a, b)?;
        Ok(del as i128)
    }

    fn sub_unchecked(a: usize, b: usize) -> (r: Self) {
        let wide: i128 = (a as i128) - (b as i128);
        wide
    }

    fn add(self, a: usize) -> (r: usize) {
        ((a as i128) + (self as i128)) as usize
    }
}

impl Nullable for i128 {
    fn null() -> (r: Self) {
        0
    }

    fn is_null(&self) -> (r: bool) {
        *self == 0
    }
}

/// An offset that is never zero. It reserves no sentinel, so a pointer that
/// uses it cannot point to its own address.
#[derive(Debug, PartialEq, Eq)]
pub struct NonZeroOffset<I: Nullable> {
    value: I,
}

impl<I: Nullable> NonZeroOffset<I> {
    #[verifier::type_invariant]
    spec fn inv(self) -> bool {
        self.value.val() != 0
    }

    /// The offset `value`, or `None` when it is zero.
    pub fn new(value: I) -> (r: Option<Self>)
        ensures
            r is None <==> value.val() == 0,
            r matches Some(n) ==> n.val() == value.val(),
    {
        if value.is_null() {
            None
        } else {
            Some(NonZeroOffset { value })
        }
    }

    /// The offset as the underlying integer type.
    pub fn get(&self) -> (r: I)
        ensures
            r.val() == self.val(),
            r.val() != 0,
    {
        proof {
            use_type_invariant(self);
        }
        self.value
    }
}

impl<I: Nullable> Clone for NonZeroOffset<I> {
    fn clone(&self) -> (r: Self)
        ensures
            r == *self,
    {
        *self
    }
}

impl<I: Nullable> Copy for NonZeroOffset<I> {
}

impl<I: Nullable> Delta for NonZeroOffset<I> {
    open spec fn lo() -> int {
        I::lo()
    }

    open spec fn hi() -> int {
        I::hi()
    }

    closed spec fn val(self) -> int {
        self.value.val()
    }

    open spec fn nonzero() -> bool {
        true
    }

    proof fn lemma_range() {
        I::lemma_range();
    }

    fn sub(a: usize, b: usize) -> (r: Result<Self, IntegerDeltaError>) {
        let del: isize = word_delta(a, b)?;
        if del == 0 {
            return Err(IntegerDeltaError::InvalidNonZero);
        }
        let value: I = I::sub(a, b)?;
        Ok(NonZeroOffset { value })
    }

    fn sub_unchecked(a: usize, b: usize) -> (r: Self) {
        NonZeroOffset { value: I::sub_unchecked(a, b) }
    }

    fn add(self, a: usize) -> (r: usize) {
        self.value.add(a)
    }
}

} // verus!

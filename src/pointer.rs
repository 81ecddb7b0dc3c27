use vstd::prelude::*;

use crate::delta::{delta_outcome, distance, fits_word, Delta, Nullable};
use crate::error::IntegerDeltaError;
use crate::metadata::MetaData;

verus! {

/// A pointer stored as a signed byte offset from its own address, plus the
/// descriptor of its pointee.
///
/// A pointer knows nothing of where it is stored, so every operation that
/// needs that takes it as `at`. An offset of zero is the null sentinel.
pub struct RelPtr<T: MetaData, I: Delta = isize> {
    offset: I,
    meta: T::Data,
}

impl<T: MetaData, I: Delta> RelPtr<T, I> {
    /// The stored offset, in bytes.
    pub closed spec fn offset(self) -> int {
        self.offset.val()
    }

    /// The stored descriptor.
    pub closed spec fn meta(self) -> T::Data {
        self.meta
    }

    /// Whether the pointer holds the null sentinel.
    pub open spec fn spec_is_null(self) -> bool {
        self.offset() == 0
    }

    /// The address the offset leads to from `at`.
    pub open spec fn target_addr(self, at: usize) -> int {
        at + self.offset()
    }

    /// Whether the offset leads from `at` to an address.
    pub open spec fn reaches(self, at: usize) -> bool {
        0 <= self.target_addr(at) <= usize::MAX
    }

    /// The reference rebuilt from `at` without a null check.
    pub open spec fn target(self, at: usize) -> Option<T>
        recommends
            self.reaches(at),
    {
        if self.target_addr(at) == 0 {
            None
        } else {
            Some(T::from_parts(self.target_addr(at) as usize, self.meta()))
        }
    }

    /// The reference read from `at`: none while the pointer is null.
    pub open spec fn read(self, at: usize) -> Option<T>
        recommends
            self.reaches(at),
    {
        if self.spec_is_null() {
            None
        } else {
            self.target(at)
        }
    }

    /// Whether the pointer, stored at `at`, leads to `value`'s address and
    /// holds its descriptor.
    pub open spec fn points_to(self, at: usize, value: T) -> bool {
        &&& self.offset() == distance(value.addr(), at)
        &&& self.meta() == value.meta()
    }

    /// What `set` at `at` to `value` returns.
    pub open spec fn set_result(at: usize, value: T) -> Result<(), IntegerDeltaError> {
        match delta_outcome(value.addr(), at, I::lo(), I::hi(), I::nonzero()) {
            Ok(_) => Ok(()),
            Err(e) => Err(e),
        }
    }

    /// How `set` at `at` to `value` leaves a pointer: pointing to `value`
    /// on success, unchanged on failure.
    pub open spec fn set_post(old: Self, new: Self, at: usize, value: T, r: Result<(), IntegerDeltaError>) -> bool {
        &&& r == Self::set_result(at, value)
        &&& r is Ok ==> new.points_to(at, value)
        &&& r is Err ==> new == old
    }

    /// Points this pointer, stored at `at`, to `value`. When the offset
    /// cannot be stored the error is returned and nothing changes.
    pub fn set(&mut self, at: usize, value: &T) -> (r: Result<(), IntegerDeltaError>)
        ensures
            Self::set_post(*old(self), *final(self), at, *value, r),
    {
        let (addr, meta): (usize, T::Data) = value.decompose();
        let offset: I = I::sub(addr, at)?;
        self.offset = offset;
        self.meta = meta;
        Ok(())
    }

    /// Points this pointer, stored at `at`, to `value`, whose offset is
    /// known beforehand to be storable.
    pub fn set_unchecked(&mut self, at: usize, value: &T)
        requires
            delta_outcome(value.addr(), at, I::lo(), I::hi(), I::nonzero()) is Ok,
        ensures
            final(self).points_to(at, *value),
    {
        let (addr, meta): (usize, T::Data) = value.decompose();
        self.offset = I::sub_unchecked(addr, at);
        self.meta = meta;
    }

    /// The reference this pointer, stored at `at`, leads to, without a null
    /// check: a pointer that was never set leads to itself.
    pub fn as_raw_unchecked(&self, at: usize) -> (r: Option<T>)
        requires
            self.reaches(at),
        ensures
            r == self.target(at),
    {
        let addr: usize = self.offset.add(at);
        T::compose(addr, self.meta)
    }

    /// The non-null reference this pointer, stored at `at`, leads to.
    pub fn as_non_null_unchecked(&self, at: usize) -> (r: T)
        requires
            self.reaches(at),
            self.target_addr(at) != 0,
        ensures
            self.target(at) == Some(r),
    {
        self.as_raw_unchecked(at).unwrap()
    }
}

/// A copy keeps the offset and the descriptor exactly: it is valid only
/// where it stands at the same distance from the pointee as the original.
impl<T: MetaData, I: Delta> Clone for RelPtr<T, I> {
    fn clone(&self) -> (r: Self)
        ensures
            r == *self,
    {
        *self
    }
}

impl<T: MetaData, I: Delta> Copy for RelPtr<T, I> {
}

/// A pointer with the given offset and the null descriptor. Only an offset
/// that `set` computed for the same placement gives a usable pointer.
impl<T: MetaData, I: Delta> From<I> for RelPtr<T, I> {
    fn from(offset: I) -> (r: Self) {
        RelPtr { offset, meta: T::default_data() }
    }
}

impl<T: MetaData, I: Delta> vstd::std_specs::convert::FromSpecImpl<I> for RelPtr<T, I> {
    open spec fn obeys_from_spec() -> bool {
        true
    }

    closed spec fn from_spec(offset: I) -> Self {
        RelPtr { offset, meta: T::null_data() }
    }
}

impl<T: MetaData, I: Delta> RelPtr<T, I> {
    /// The pointer that `from` builds holds the given offset and the null descriptor.
    pub proof fn lemma_from(offset: I)
        ensures
            <Self as vstd::std_specs::convert::FromSpec<I>>::from_spec(offset).offset() == offset.val(),
            <Self as vstd::std_specs::convert::FromSpec<I>>::from_spec(offset).meta() == T::null_data(),
    {
    }
}

impl<T: MetaData, I: Nullable> RelPtr<T, I> {
    /// The null pointer: the sentinel offset and the null descriptor.
    pub fn null() -> (r: Self)
        ensures
            r.spec_is_null(),
            r.meta() == T::null_data(),
    {
        RelPtr { offset: I::null(), meta: T::default_data() }
    }

    /// Whether the pointer holds the null sentinel.
    pub fn is_null(&self) -> (r: bool)
        ensures
            r == self.spec_is_null(),
    {
        self.offset.is_null()
    }

    /// The reference this pointer, stored at `at`, leads to; `None` while it
    /// is null.
    pub fn as_raw(&self, at: usize) -> (r: Option<T>)
        requires
            self.spec_is_null() || self.reaches(at),
        ensures
            r == self.read(at),
    {
        if self.is_null() {
            T::compose(0, T::default_data())
        } else {
            self.as_raw_unchecked(at)
        }
    }
}

/// After a successful `set` at `at` to a pointee elsewhere than `at`,
/// reading from `at` gives that pointee back.
pub proof fn lemma_round_trip<T: MetaData, I: Delta>(
    old: RelPtr<T, I>,
    new: RelPtr<T, I>,
    at: usize,
    value: T,
)
    requires
        RelPtr::set_post(old, new, at, value, Ok(())),
        value.addr() != 0,
        value.addr() != at,
    ensures
        new.reaches(at),
        new.read(at) == Some(value),
{
    value.lemma_parts(value.addr(), value.meta());
}

/// A null pointer reads as no reference, wherever it is stored.
pub proof fn lemma_null_reads_none<T: MetaData, I: Delta>(p: RelPtr<T, I>, at: usize)
    requires
        p.spec_is_null(),
    ensures
        p.read(at) is None,
{
}

/// After a successful `set` at `at` to a pointee elsewhere than `at`, moving
/// pointer and pointee together (to `at2` and `addr2`, the same distance
/// apart) leaves a pointer that reads the pointee at its new address.
pub proof fn lemma_relocation<T: MetaData, I: Delta>(
    old: RelPtr<T, I>,
    new: RelPtr<T, I>,
    at: usize,
    value: T,
    at2: usize,
    addr2: usize,
)
    requires
        RelPtr::set_post(old, new, at, value, Ok(())),
        value.addr() != at,
        addr2 != 0,
        distance(addr2, at2) == distance(value.addr(), at),
    ensures
        new.reaches(at2),
        new.read(at2) == Some(T::from_parts(addr2, value.meta())),
{
}

/// A pointee too far away for the offset type, though within an `isize`,
/// makes `set` fail with a conversion error and leave the pointer unchanged.
pub proof fn lemma_narrowing_failure<T: MetaData, I: Delta>(
    old: RelPtr<T, I>,
    new: RelPtr<T, I>,
    at: usize,
    value: T,
    r: Result<(), IntegerDeltaError>,
)
    requires
        RelPtr::set_post(old, new, at, value, r),
        fits_word(distance(value.addr(), at)),
        distance(value.addr(), at) < I::lo() || I::hi() < distance(value.addr(), at),
    ensures
        r == Err::<(), IntegerDeltaError>(
            IntegerDeltaError::Conversion(distance(value.addr(), at) as isize),
        ),
        new == old,
{
    I::lemma_range();
}

} // verus!

use vstd::prelude::*;
use zerocopy::error::AllocError;
use crate::zero_bytes::{spliced, zeros, ZeroBytes};

verus! {

/// Why a zero-initialising operation did not take place.
#[derive(Debug, Clone, Copy, PartialEq, Eq, Structural)]
pub enum ZeroedError {
    /// The allocator could not provide the requested extent.
    AllocationFailure,
    /// The insertion position lies beyond the end of the vector.
    OutOfBounds,
}

/// Token that only this module can name, so that no other crate can
/// implement [`VecZeroed`].
pub struct Seal {
    _private: (),
}

/// Extension of `Vec` with construction, extension and insertion of zeroed
/// elements.
pub trait VecZeroed: Sized {
    /// Appends `additional` zeroed elements.
    fn extend_zeroed(&mut self, additional: usize) -> Result<(), ZeroedError>;

    /// Inserts `additional` zeroed elements before index `position`.
    fn insert_zeroed(&mut self, position: usize, additional: usize) -> Result<(), ZeroedError>;

    /// A new vector of `len` zeroed elements.
    fn new_zeroed(len: usize) -> Result<Self, ZeroedError>;

    /// Exists only to keep the trait sealed.
    fn sealed() -> Seal;
}

impl<T: ZeroBytes> VecZeroed for Vec<T> {
    #[inline]
    fn extend_zeroed(&mut self, additional: usize) -> (r: Result<(), ZeroedError>)
        ensures
            r is Ok ==> final(self)@ == old(self)@ + zeros::<T>(additional as nat),
            r is Err ==> r == Err::<(), ZeroedError>(ZeroedError::AllocationFailure)
                && final(self)@ == old(self)@,
            additional == 0 ==> r is Ok,
    {
        let len = self.len();
        match T::insert_zeroed_at(self, len, additional) {
            Ok(()) => {
                assert(spliced(old(self)@, len as int, zeros::<T>(additional as nat)) =~= old(
                    self,
                )@ + zeros::<T>(additional as nat));
                Ok(())
            }
            Err(_) => Err(ZeroedError::AllocationFailure),
        }
    }

    #[inline]
    fn insert_zeroed(&mut self, position: usize, additional: usize) -> (r: Result<(), ZeroedError>)
        ensures
            position > old(self)@.len() ==> r == Err::<(), ZeroedError>(ZeroedError::OutOfBounds)
                && final(self)@ == old(self)@,
            position <= old(self)@.len() ==> {
                &&& r is Ok ==> final(self)@ == spliced(
                    old(self)@,
                    position as int,
                    zeros::<T>(additional as nat),
                )
                &&& r is Err ==> r == Err::<(), ZeroedError>(ZeroedError::AllocationFailure)
                    && final(self)@ == old(self)@
                &&& additional == 0 ==> r is Ok
            },
    {
        if position > self.len() {
            return Err(ZeroedError::OutOfBounds);
        }
        match T::insert_zeroed_at(self, position, additional) {
            Ok(()) => Ok(()),
            Err(_) => Err(ZeroedError::AllocationFailure),
        }
    }

    #[inline]
    fn new_zeroed(len: usize) -> (r: Result<Vec<T>, ZeroedError>)
        ensures
            r matches Ok(v) ==> v@ == zeros::<T>(len as nat),
            r is Err ==> r == Err::<Vec<T>, ZeroedError>(ZeroedError::AllocationFailure),
            len == 0 ==> r is Ok,
    {
        match T::alloc_zeroed_vec(len) {
            Ok(v) => Ok(v),
            Err(_) => Err(ZeroedError::AllocationFailure),
        }
    }

    fn sealed() -> Seal {
        Seal { _private: () }
    }
}

/// Inserting zeroed elements at the end of a vector gives the same elements
/// as extending it by that many zeroed elements.
pub proof fn lemma_insert_at_end_is_extend<T: ZeroBytes>(s: Seq<T>, additional: nat)
    ensures
        spliced(s, s.len() as int, zeros::<T>(additional)) == s + zeros::<T>(additional),
{
    assert(spliced(s, s.len() as int, zeros::<T>(additional)) =~= s + zeros::<T>(additional));
}

/// After inserting `additional` zeroed elements at `position`, the elements
/// before `position` are unchanged, the next `additional` are zero, and the
/// elements that were at `position` and after follow in the same order.
pub proof fn lemma_insert_zeroed_layout<T: ZeroBytes>(s: Seq<T>, position: int, additional: nat)
    requires
        0 <= position <= s.len(),
    ensures
        ({
            let r = spliced(s, position, zeros::<T>(additional));
            &&& r.len() == s.len() + additional
            &&& forall|i: int| 0 <= i < position ==> #[trigger] r[i] == s[i]
            &&& forall|i: int| position <= i < position + additional ==> #[trigger] r[i] == T::zeroed()
            &&& forall|i: int| position <= i < s.len() ==> #[trigger] r[i + additional] == s[i]
        }),
{
}

} // verus!

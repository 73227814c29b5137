//! A runtime-checked single-writer interior-mutability container.
//!
//! The shared-reference mutex variant hands its protected value out for
//! the duration of one `lock` call at a time. A second attempt to take the
//! value while one is already outstanding is a reentrant access, which the
//! container — not the mutex — is responsible for detecting.

use vstd::prelude::*;

verus! {

/// The errors a lock attempt can surface.
#[derive(Clone, Copy, Debug, PartialEq, Eq, Structural)]
pub enum LockError {
    /// A nested lock attempt on storage whose value is already handed out
    /// to an active lock call.
    ReentrantLock,
}

/// Storage for one value with a runtime-checked single-writer discipline:
/// the value can be taken out for exclusive use and must be put back
/// before it can be taken again. While the value is out, the cell is
/// *borrowed*, and every further take is refused as reentrant.
pub struct BorrowCell<T> {
    slot: Option<T>,
}

impl<T> BorrowCell<T> {
    /// Whether the value is currently handed out.
    pub closed spec fn is_borrowed(self) -> bool {
        self.slot is None
    }

    /// The stored value; meaningful only while the cell is not borrowed.
    pub closed spec fn value(self) -> T {
        self.slot->Some_0
    }

    /// A cell holding `value`, not borrowed.
    pub fn new(value: T) -> (r: Self)
        ensures
            !r.is_borrowed(),
            r.value() == value,
    {
        BorrowCell { slot: Some(value) }
    }

    /// Takes the value out for exclusive use, marking the cell borrowed;
    /// refuses a take on a cell that is already borrowed, leaving it
    /// unchanged. Either way the cell is borrowed afterwards.
    pub fn take(&mut self) -> (r: Result<T, LockError>)
        ensures
            old(self).is_borrowed() ==> r == Result::<T, LockError>::Err(LockError::ReentrantLock),
            !old(self).is_borrowed() ==> r == Result::<T, LockError>::Ok(old(self).value()),
            final(self).is_borrowed(),
    {
        match self.slot.take() {
            Some(value) => Ok(value),
            None => Err(LockError::ReentrantLock),
        }
    }

    /// Puts a value back into a borrowed cell, ending the borrow.
    pub fn release(&mut self, value: T)
        requires
            old(self).is_borrowed(),
        ensures
            !final(self).is_borrowed(),
            final(self).value() == value,
    {
        self.slot = Some(value);
    }
}

} // verus!

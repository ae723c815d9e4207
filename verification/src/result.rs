//! Result vocabulary of the non-blocking locking methods.

use vstd::prelude::*;

verus! {

/// A type alias for the result of a nonblocking locking method: the acquired
/// guard on success, the reason the lock was not taken otherwise.
pub type TryLockResult<Guard> = Result<Guard, TryLockError>;

/// Why a non-blocking acquisition returned without the lock.
#[derive(Clone, Copy, Debug, PartialEq, Eq, Structural)]
pub enum TryLockError {
    /// The lock could not be acquired at this time because the operation
    /// would otherwise block.
    WouldBlock,
}

/// Report a non-blocking acquisition attempt through the result vocabulary:
/// success becomes the guard value, failure becomes [`TryLockError::WouldBlock`].
pub fn try_lock_result(acquired: bool) -> (r: TryLockResult<()>)
    ensures
        acquired <==> r is Ok,
        !acquired ==> r == TryLockResult::<()>::Err(TryLockError::WouldBlock),
{
    if acquired {
        Ok(())
    } else {
        Err(TryLockError::WouldBlock)
    }
}

} // verus!

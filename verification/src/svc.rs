//! Result shaping for the kernel arbitration interface.
//!
//! The four arbitration calls — arbitrate-lock, arbitrate-unlock,
//! wait-process-wide-key and signal-process-wide-key — report failures as raw
//! result codes. Each call's documented failure conditions are typed here,
//! and the classification from a raw code to the typed error is exact:
//! documented descriptions map to their variant, anything else is carried
//! opaquely and never guessed at.

use vstd::prelude::*;

use crate::error::KernelError;
use crate::error::ResultCode;
use crate::error::ToRawResultCode;
use crate::error::rc_description;
use crate::error::rc_is_success;

verus! {

/// Failure of an arbitrate-lock call.
#[derive(Clone, Copy, Debug, PartialEq, Eq, Structural)]
pub enum ArbitrateLockError {
    /// The owner thread handle is invalid.
    InvalidHandle,
    /// The mutex memory cannot be accessed.
    InvalidMemState,
    /// The calling thread is marked for termination.
    ThreadTerminating,
    /// A code outside the documented table, carried unchanged.
    Unknown { rc: ResultCode },
}

/// The typed outcome an arbitrate-lock result code denotes.
pub open spec fn spec_classify_arbitrate_lock(rc: ResultCode) -> Result<(), ArbitrateLockError> {
    if rc == 0 {
        Ok(())
    } else {
        let d = rc_description(rc);
        if d == KernelError::InvalidHandle.spec_description() {
            Err(ArbitrateLockError::InvalidHandle)
        } else if d == KernelError::InvalidAddress.spec_description() {
            Err(ArbitrateLockError::InvalidMemState)
        } else if d == KernelError::TerminationRequested.spec_description() {
            Err(ArbitrateLockError::ThreadTerminating)
        } else {
            Err(ArbitrateLockError::Unknown { rc })
        }
    }
}

/// Classify an arbitrate-lock result code.
pub fn classify_arbitrate_lock(rc: ResultCode) -> (r: Result<(), ArbitrateLockError>)
    ensures
        r == spec_classify_arbitrate_lock(rc),
        r is Ok <==> rc_is_success(rc),
{
    if rc == 0 {
        return Ok(());
    }
    let d = crate::error::describe_rc(rc);
    if d == KernelError::InvalidHandle.description() {
        Err(ArbitrateLockError::InvalidHandle)
    } else if d == KernelError::InvalidAddress.description() {
        Err(ArbitrateLockError::InvalidMemState)
    } else if d == KernelError::TerminationRequested.description() {
        Err(ArbitrateLockError::ThreadTerminating)
    } else {
        Err(ArbitrateLockError::Unknown { rc })
    }
}

/// Failure of an arbitrate-unlock call.
#[derive(Clone, Copy, Debug, PartialEq, Eq, Structural)]
pub enum ArbitrateUnlockError {
    /// The mutex memory cannot be accessed.
    InvalidMemState,
    /// A code outside the documented table, carried unchanged.
    Unknown { rc: ResultCode },
}

/// The typed outcome an arbitrate-unlock result code denotes.
pub open spec fn spec_classify_arbitrate_unlock(rc: ResultCode) -> Result<
    (),
    ArbitrateUnlockError,
> {
    if rc == 0 {
        Ok(())
    } else {
        let d = rc_description(rc);
        if d == KernelError::InvalidAddress.spec_description() {
            Err(ArbitrateUnlockError::InvalidMemState)
        } else {
            Err(ArbitrateUnlockError::Unknown { rc })
        }
    }
}

/// Classify an arbitrate-unlock result code.
pub fn classify_arbitrate_unlock(rc: ResultCode) -> (r: Result<(), ArbitrateUnlockError>)
    ensures
        r == spec_classify_arbitrate_unlock(rc),
        r is Ok <==> rc_is_success(rc),
{
    if rc == 0 {
        return Ok(());
    }
    let d = crate::error::describe_rc(rc);
    if d == KernelError::InvalidAddress.description() {
        Err(ArbitrateUnlockError::InvalidMemState)
    } else {
        Err(ArbitrateUnlockError::Unknown { rc })
    }
}

/// Failure of a wait-process-wide-key call. A timeout is an expected outcome
/// that callers branch on, not a fault.
#[derive(Clone, Copy, Debug, PartialEq, Eq, Structural)]
pub enum WaitProcessWideKeyError {
    /// The mutex or condvar memory cannot be accessed.
    InvalidMemState,
    /// The calling thread is marked for termination.
    ThreadTerminating,
    /// The wait timed out; the caller does not hold the mutex.
    TimedOut,
    /// A code outside the documented table, carried unchanged.
    Unknown { rc: ResultCode },
}

/// The typed outcome a wait-process-wide-key result code denotes.
pub open spec fn spec_classify_wait_process_wide_key(rc: ResultCode) -> Result<
    (),
    WaitProcessWideKeyError,
> {
    if rc == 0 {
        Ok(())
    } else {
        let d = rc_description(rc);
        if d == KernelError::InvalidAddress.spec_description() {
            Err(WaitProcessWideKeyError::InvalidMemState)
        } else if d == KernelError::TerminationRequested.spec_description() {
            Err(WaitProcessWideKeyError::ThreadTerminating)
        } else if d == KernelError::TimedOut.spec_description() {
            Err(WaitProcessWideKeyError::TimedOut)
        } else {
            Err(WaitProcessWideKeyError::Unknown { rc })
        }
    }
}

/// Classify a wait-process-wide-key result code.
pub fn classify_wait_process_wide_key(rc: ResultCode) -> (r: Result<(), WaitProcessWideKeyError>)
    ensures
        r == spec_classify_wait_process_wide_key(rc),
        r is Ok <==> rc_is_success(rc),
{
    if rc == 0 {
        return Ok(());
    }
    let d = crate::error::describe_rc(rc);
    if d == KernelError::InvalidAddress.description() {
        Err(WaitProcessWideKeyError::InvalidMemState)
    } else if d == KernelError::TerminationRequested.description() {
        Err(WaitProcessWideKeyError::ThreadTerminating)
    } else if d == KernelError::TimedOut.description() {
        Err(WaitProcessWideKeyError::TimedOut)
    } else {
        Err(WaitProcessWideKeyError::Unknown { rc })
    }
}

impl ToRawResultCode for WaitProcessWideKeyError {
    open spec fn spec_rc(self) -> ResultCode {
        match self {
            WaitProcessWideKeyError::InvalidMemState => KernelError::InvalidAddress.spec_rc(),
            WaitProcessWideKeyError::ThreadTerminating => {
                KernelError::TerminationRequested.spec_rc()
            }
            WaitProcessWideKeyError::TimedOut => KernelError::TimedOut.spec_rc(),
            WaitProcessWideKeyError::Unknown { rc } => rc,
        }
    }

    fn to_rc(self) -> (rc: ResultCode) {
        match self {
            WaitProcessWideKeyError::InvalidMemState => KernelError::InvalidAddress.to_rc(),
            WaitProcessWideKeyError::ThreadTerminating => {
                KernelError::TerminationRequested.to_rc()
            }
            WaitProcessWideKeyError::TimedOut => KernelError::TimedOut.to_rc(),
            WaitProcessWideKeyError::Unknown { rc } => rc,
        }
    }
}

} // verus!

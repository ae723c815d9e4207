//! Result shaping for the transfer-memory kernel calls.
//!
//! Like the shared-memory calls, transfer-memory management is a kernel
//! service; this layer types its documented failure conditions and proves the
//! classification from raw result codes exact.

use vstd::prelude::*;

use crate::error::KernelError;
use crate::error::ResultCode;
use crate::error::ToRawResultCode;
use crate::error::rc_description;
use crate::error::rc_is_success;

verus! {

/// Failure of creating a transfer-memory object.
#[derive(Clone, Copy, Debug, PartialEq, Eq, Structural)]
pub enum CreateTransferMemoryError {
    /// The size is invalid.
    InvalidSize,
    /// The backing address is invalid.
    InvalidAddress,
    /// The requested permission is not allowed.
    InvalidPermission,
    /// The backing memory is in the wrong state.
    InvalidMemState,
    /// The process reached its resource limit.
    LimitReached,
    /// A code outside the documented table, carried unchanged.
    Unknown { rc: ResultCode },
}

/// The typed outcome a create-transfer-memory result code denotes.
pub open spec fn spec_classify_create_transfer_memory(rc: ResultCode) -> Result<
    (),
    CreateTransferMemoryError,
> {
    if rc == 0 {
        Ok(())
    } else {
        let d = rc_description(rc);
        if d == KernelError::InvalidSize.spec_description() {
            Err(CreateTransferMemoryError::InvalidSize)
        } else if d == KernelError::InvalidAddress.spec_description() {
            Err(CreateTransferMemoryError::InvalidAddress)
        } else if d == KernelError::InvalidNewMemoryPermission.spec_description() {
            Err(CreateTransferMemoryError::InvalidPermission)
        } else if d == KernelError::InvalidCurrentMemory.spec_description() {
            Err(CreateTransferMemoryError::InvalidMemState)
        } else if d == KernelError::LimitReached.spec_description() {
            Err(CreateTransferMemoryError::LimitReached)
        } else {
            Err(CreateTransferMemoryError::Unknown { rc })
        }
    }
}

/// Classify a create-transfer-memory result code.
pub fn classify_create_transfer_memory(rc: ResultCode) -> (r: Result<
    (),
    CreateTransferMemoryError,
>)
    ensures
        r == spec_classify_create_transfer_memory(rc),
        r is Ok <==> rc_is_success(rc),
{
    if rc == 0 {
        return Ok(());
    }
    let d = crate::error::describe_rc(rc);
    if d == KernelError::InvalidSize.description() {
        Err(CreateTransferMemoryError::InvalidSize)
    } else if d == KernelError::InvalidAddress.description() {
        Err(CreateTransferMemoryError::InvalidAddress)
    } else if d == KernelError::InvalidNewMemoryPermission.description() {
        Err(CreateTransferMemoryError::InvalidPermission)
    } else if d == KernelError::InvalidCurrentMemory.description() {
        Err(CreateTransferMemoryError::InvalidMemState)
    } else if d == KernelError::LimitReached.description() {
        Err(CreateTransferMemoryError::LimitReached)
    } else {
        Err(CreateTransferMemoryError::Unknown { rc })
    }
}

impl ToRawResultCode for CreateTransferMemoryError {
    open spec fn spec_rc(self) -> ResultCode {
        match self {
            CreateTransferMemoryError::InvalidSize => KernelError::InvalidSize.spec_rc(),
            CreateTransferMemoryError::InvalidAddress => KernelError::InvalidAddress.spec_rc(),
            CreateTransferMemoryError::InvalidPermission => {
                KernelError::InvalidNewMemoryPermission.spec_rc()
            }
            CreateTransferMemoryError::InvalidMemState => {
                KernelError::InvalidCurrentMemory.spec_rc()
            }
            CreateTransferMemoryError::LimitReached => KernelError::LimitReached.spec_rc(),
            CreateTransferMemoryError::Unknown { rc } => rc,
        }
    }

    fn to_rc(self) -> (rc: ResultCode) {
        match self {
            CreateTransferMemoryError::InvalidSize => KernelError::InvalidSize.to_rc(),
            CreateTransferMemoryError::InvalidAddress => KernelError::InvalidAddress.to_rc(),
            CreateTransferMemoryError::InvalidPermission => {
                KernelError::InvalidNewMemoryPermission.to_rc()
            }
            CreateTransferMemoryError::InvalidMemState => {
                KernelError::InvalidCurrentMemory.to_rc()
            }
            CreateTransferMemoryError::LimitReached => KernelError::LimitReached.to_rc(),
            CreateTransferMemoryError::Unknown { rc } => rc,
        }
    }
}

/// Failure of mapping a transfer-memory object.
#[derive(Clone, Copy, Debug, PartialEq, Eq, Structural)]
pub enum MapTransferMemoryError {
    /// The object handle is invalid.
    InvalidHandle,
    /// The target address is invalid.
    InvalidAddress,
    /// The size does not match the object.
    InvalidSize,
    /// The target memory is in the wrong state.
    InvalidCurrentMemory,
    /// The target region is not usable for mapping.
    InvalidMemoryRegion,
    /// The requested permission is not allowed.
    InvalidPermission,
    /// A code outside the documented table, carried unchanged.
    Unknown { rc: ResultCode },
}

/// The typed outcome a map-transfer-memory result code denotes.
pub open spec fn spec_classify_map_transfer_memory(rc: ResultCode) -> Result<
    (),
    MapTransferMemoryError,
> {
    if rc == 0 {
        Ok(())
    } else {
        let d = rc_description(rc);
        if d == KernelError::InvalidHandle.spec_description() {
            Err(MapTransferMemoryError::InvalidHandle)
        } else if d == KernelError::InvalidAddress.spec_description() {
            Err(MapTransferMemoryError::InvalidAddress)
        } else if d == KernelError::InvalidCurrentMemory.spec_description() {
            Err(MapTransferMemoryError::InvalidCurrentMemory)
        } else if d == KernelError::InvalidSize.spec_description() {
            Err(MapTransferMemoryError::InvalidSize)
        } else if d == KernelError::InvalidMemoryRegion.spec_description() {
            Err(MapTransferMemoryError::InvalidMemoryRegion)
        } else if d == KernelError::InvalidNewMemoryPermission.spec_description() {
            Err(MapTransferMemoryError::InvalidPermission)
        } else {
            Err(MapTransferMemoryError::Unknown { rc })
        }
    }
}

/// Classify a map-transfer-memory result code.
pub fn classify_map_transfer_memory(rc: ResultCode) -> (r: Result<(), MapTransferMemoryError>)
    ensures
        r == spec_classify_map_transfer_memory(rc),
        r is Ok <==> rc_is_success(rc),
{
    if rc == 0 {
        return Ok(());
    }
    let d = crate::error::describe_rc(rc);
    if d == KernelError::InvalidHandle.description() {
        Err(MapTransferMemoryError::InvalidHandle)
    } else if d == KernelError::InvalidAddress.description() {
        Err(MapTransferMemoryError::InvalidAddress)
    } else if d == KernelError::InvalidCurrentMemory.description() {
        Err(MapTransferMemoryError::InvalidCurrentMemory)
    } else if d == KernelError::InvalidSize.description() {
        Err(MapTransferMemoryError::InvalidSize)
    } else if d == KernelError::InvalidMemoryRegion.description() {
        Err(MapTransferMemoryError::InvalidMemoryRegion)
    } else if d == KernelError::InvalidNewMemoryPermission.description() {
        Err(MapTransferMemoryError::InvalidPermission)
    } else {
        Err(MapTransferMemoryError::Unknown { rc })
    }
}

impl ToRawResultCode for MapTransferMemoryError {
    open spec fn spec_rc(self) -> ResultCode {
        match self {
            MapTransferMemoryError::InvalidHandle => KernelError::InvalidHandle.spec_rc(),
            MapTransferMemoryError::InvalidAddress => KernelError::InvalidAddress.spec_rc(),
            MapTransferMemoryError::InvalidSize => KernelError::InvalidSize.spec_rc(),
            MapTransferMemoryError::InvalidCurrentMemory => {
                KernelError::InvalidCurrentMemory.spec_rc()
            }
            MapTransferMemoryError::InvalidMemoryRegion => {
                KernelError::InvalidMemoryRegion.spec_rc()
            }
            MapTransferMemoryError::InvalidPermission => {
                KernelError::InvalidNewMemoryPermission.spec_rc()
            }
            MapTransferMemoryError::Unknown { rc } => rc,
        }
    }

    fn to_rc(self) -> (rc: ResultCode) {
        match self {
            MapTransferMemoryError::InvalidHandle => KernelError::InvalidHandle.to_rc(),
            MapTransferMemoryError::InvalidAddress => KernelError::InvalidAddress.to_rc(),
            MapTransferMemoryError::InvalidSize => KernelError::InvalidSize.to_rc(),
            MapTransferMemoryError::InvalidCurrentMemory => {
                KernelError::InvalidCurrentMemory.to_rc()
            }
            MapTransferMemoryError::InvalidMemoryRegion => {
                KernelError::InvalidMemoryRegion.to_rc()
            }
            MapTransferMemoryError::InvalidPermission => {
                KernelError::InvalidNewMemoryPermission.to_rc()
            }
            MapTransferMemoryError::Unknown { rc } => rc,
        }
    }
}

/// Failure of unmapping a transfer-memory object.
#[derive(Clone, Copy, Debug, PartialEq, Eq, Structural)]
pub enum UnmapTransferMemoryError {
    /// The object handle is invalid.
    InvalidHandle,
    /// The mapped address is invalid.
    InvalidAddress,
    /// The size does not match the mapping.
    InvalidSize,
    /// The mapped memory is in the wrong state.
    InvalidCurrentMemory,
    /// The range is not a mapping of this object.
    InvalidMemoryRegion,
    /// A code outside the documented table, carried unchanged.
    Unknown { rc: ResultCode },
}

/// The typed outcome an unmap-transfer-memory result code denotes.
pub open spec fn spec_classify_unmap_transfer_memory(rc: ResultCode) -> Result<
    (),
    UnmapTransferMemoryError,
> {
    if rc == 0 {
        Ok(())
    } else {
        let d = rc_description(rc);
        if d == KernelError::InvalidHandle.spec_description() {
            Err(UnmapTransferMemoryError::InvalidHandle)
        } else if d == KernelError::InvalidAddress.spec_description() {
            Err(UnmapTransferMemoryError::InvalidAddress)
        } else if d == KernelError::InvalidCurrentMemory.spec_description() {
            Err(UnmapTransferMemoryError::InvalidCurrentMemory)
        } else if d == KernelError::InvalidSize.spec_description() {
            Err(UnmapTransferMemoryError::InvalidSize)
        } else if d == KernelError::InvalidMemoryRegion.spec_description() {
            Err(UnmapTransferMemoryError::InvalidMemoryRegion)
        } else {
            Err(UnmapTransferMemoryError::Unknown { rc })
        }
    }
}

/// Classify an unmap-transfer-memory result code.
pub fn classify_unmap_transfer_memory(rc: ResultCode) -> (r: Result<(), UnmapTransferMemoryError>)
    ensures
        r == spec_classify_unmap_transfer_memory(rc),
        r is Ok <==> rc_is_success(rc),
{
    if rc == 0 {
        return Ok(());
    }
    let d = crate::error::describe_rc(rc);
    if d == KernelError::InvalidHandle.description() {
        Err(UnmapTransferMemoryError::InvalidHandle)
    } else if d == KernelError::InvalidAddress.description() {
        Err(UnmapTransferMemoryError::InvalidAddress)
    } else if d == KernelError::InvalidCurrentMemory.description() {
        Err(UnmapTransferMemoryError::InvalidCurrentMemory)
    } else if d == KernelError::InvalidSize.description() {
        Err(UnmapTransferMemoryError::InvalidSize)
    } else if d == KernelError::InvalidMemoryRegion.description() {
        Err(UnmapTransferMemoryError::InvalidMemoryRegion)
    } else {
        Err(UnmapTransferMemoryError::Unknown { rc })
    }
}

impl ToRawResultCode for UnmapTransferMemoryError {
    open spec fn spec_rc(self) -> ResultCode {
        match self {
            UnmapTransferMemoryError::InvalidHandle => KernelError::InvalidHandle.spec_rc(),
            UnmapTransferMemoryError::InvalidAddress => KernelError::InvalidAddress.spec_rc(),
            UnmapTransferMemoryError::InvalidSize => KernelError::InvalidSize.spec_rc(),
            UnmapTransferMemoryError::InvalidCurrentMemory => {
                KernelError::InvalidCurrentMemory.spec_rc()
            }
            UnmapTransferMemoryError::InvalidMemoryRegion => {
                KernelError::InvalidMemoryRegion.spec_rc()
            }
            UnmapTransferMemoryError::Unknown { rc } => rc,
        }
    }

    fn to_rc(self) -> (rc: ResultCode) {
        match self {
            UnmapTransferMemoryError::InvalidHandle => KernelError::InvalidHandle.to_rc(),
            UnmapTransferMemoryError::InvalidAddress => KernelError::InvalidAddress.to_rc(),
            UnmapTransferMemoryError::InvalidSize => KernelError::InvalidSize.to_rc(),
            UnmapTransferMemoryError::InvalidCurrentMemory => {
                KernelError::InvalidCurrentMemory.to_rc()
            }
            UnmapTransferMemoryError::InvalidMemoryRegion => {
                KernelError::InvalidMemoryRegion.to_rc()
            }
            UnmapTransferMemoryError::Unknown { rc } => rc,
        }
    }
}

/// Failure of closing a transfer-memory handle.
#[derive(Clone, Copy, Debug, PartialEq, Eq, Structural)]
pub enum CloseHandleError {
    /// The handle is invalid.
    InvalidHandle,
    /// A code outside the documented table, carried unchanged.
    Unknown { rc: ResultCode },
}

/// The typed outcome a close-handle result code denotes.
pub open spec fn spec_classify_close_handle(rc: ResultCode) -> Result<(), CloseHandleError> {
    if rc == 0 {
        Ok(())
    } else {
        let d = rc_description(rc);
        if d == KernelError::InvalidHandle.spec_description() {
            Err(CloseHandleError::InvalidHandle)
        } else {
            Err(CloseHandleError::Unknown { rc })
        }
    }
}

/// Classify a close-handle result code.
pub fn classify_close_handle(rc: ResultCode) -> (r: Result<(), CloseHandleError>)
    ensures
        r == spec_classify_close_handle(rc),
        r is Ok <==> rc_is_success(rc),
{
    if rc == 0 {
        return Ok(());
    }
    let d = crate::error::describe_rc(rc);
    if d == KernelError::InvalidHandle.description() {
        Err(CloseHandleError::InvalidHandle)
    } else {
        Err(CloseHandleError::Unknown { rc })
    }
}

impl ToRawResultCode for CloseHandleError {
    open spec fn spec_rc(self) -> ResultCode {
        match self {
            CloseHandleError::InvalidHandle => KernelError::InvalidHandle.spec_rc(),
            CloseHandleError::Unknown { rc } => rc,
        }
    }

    fn to_rc(self) -> (rc: ResultCode) {
        match self {
            CloseHandleError::InvalidHandle => KernelError::InvalidHandle.to_rc(),
            CloseHandleError::Unknown { rc } => rc,
        }
    }
}

} // verus!

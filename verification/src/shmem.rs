//! Result shaping for the shared-memory kernel calls.
//!
//! Creating, mapping, unmapping and closing shared-memory objects are kernel
//! services with no logic of their own in this layer; what belongs here is
//! the typed form of their documented failure conditions and the exact
//! classification from raw result codes.

use vstd::prelude::*;

use crate::error::KernelError;
use crate::error::ResultCode;
use crate::error::ToRawResultCode;
use crate::error::rc_description;
use crate::error::rc_is_success;

verus! {

/// Failure of creating a shared-memory object.
#[derive(Clone, Copy, Debug, PartialEq, Eq, Structural)]
pub enum CreateSharedMemoryError {
    /// The kernel is out of memory.
    OutOfMemory,
    /// The process reached its resource limit.
    LimitReached,
    /// A code outside the documented table, carried unchanged.
    Unknown { rc: ResultCode },
}

/// The typed outcome a create-shared-memory result code denotes.
pub open spec fn spec_classify_create_shared_memory(rc: ResultCode) -> Result<
    (),
    CreateSharedMemoryError,
> {
    if rc == 0 {
        Ok(())
    } else {
        let d = rc_description(rc);
        if d == KernelError::OutOfMemory.spec_description() {
            Err(CreateSharedMemoryError::OutOfMemory)
        } else if d == KernelError::LimitReached.spec_description() {
            Err(CreateSharedMemoryError::LimitReached)
        } else {
            Err(CreateSharedMemoryError::Unknown { rc })
        }
    }
}

/// Classify a create-shared-memory result code.
pub fn classify_create_shared_memory(rc: ResultCode) -> (r: Result<(), CreateSharedMemoryError>)
    ensures
        r == spec_classify_create_shared_memory(rc),
        r is Ok <==> rc_is_success(rc),
{
    if rc == 0 {
        return Ok(());
    }
    let d = crate::error::describe_rc(rc);
    if d == KernelError::OutOfMemory.description() {
        Err(CreateSharedMemoryError::OutOfMemory)
    } else if d == KernelError::LimitReached.description() {
        Err(CreateSharedMemoryError::LimitReached)
    } else {
        Err(CreateSharedMemoryError::Unknown { rc })
    }
}

impl ToRawResultCode for CreateSharedMemoryError {
    open spec fn spec_rc(self) -> ResultCode {
        match self {
            CreateSharedMemoryError::OutOfMemory => KernelError::OutOfMemory.spec_rc(),
            CreateSharedMemoryError::LimitReached => KernelError::LimitReached.spec_rc(),
            CreateSharedMemoryError::Unknown { rc } => rc,
        }
    }

    fn to_rc(self) -> (rc: ResultCode) {
        match self {
            CreateSharedMemoryError::OutOfMemory => KernelError::OutOfMemory.to_rc(),
            CreateSharedMemoryError::LimitReached => KernelError::LimitReached.to_rc(),
            CreateSharedMemoryError::Unknown { rc } => rc,
        }
    }
}

/// Failure of mapping a shared-memory object into the current process.
#[derive(Clone, Copy, Debug, PartialEq, Eq, Structural)]
pub enum MapSharedMemoryError {
    /// The object handle is invalid.
    InvalidHandle,
    /// The target address is invalid.
    InvalidAddress,
    /// The target memory is in the wrong state.
    InvalidCurrentMemory,
    /// The target region is not usable for mapping.
    InvalidMemoryRegion,
    /// The size does not match the object.
    InvalidSize,
    /// The requested permission is not allowed.
    InvalidPermission,
    /// The kernel is out of bookkeeping resources.
    OutOfResource,
    /// The kernel is out of memory.
    OutOfMemory,
    /// A code outside the documented table, carried unchanged.
    Unknown { rc: ResultCode },
}

/// The typed outcome a map-shared-memory result code denotes.
pub open spec fn spec_classify_map_shared_memory(rc: ResultCode) -> Result<
    (),
    MapSharedMemoryError,
> {
    if rc == 0 {
        Ok(())
    } else {
        let d = rc_description(rc);
        if d == KernelError::InvalidHandle.spec_description() {
            Err(MapSharedMemoryError::InvalidHandle)
        } else if d == KernelError::InvalidAddress.spec_description() {
            Err(MapSharedMemoryError::InvalidAddress)
        } else if d == KernelError::InvalidCurrentMemory.spec_description() {
            Err(MapSharedMemoryError::InvalidCurrentMemory)
        } else if d == KernelError::InvalidMemoryRegion.spec_description() {
            Err(MapSharedMemoryError::InvalidMemoryRegion)
        } else if d == KernelError::InvalidSize.spec_description() {
            Err(MapSharedMemoryError::InvalidSize)
        } else if d == KernelError::InvalidNewMemoryPermission.spec_description() {
            Err(MapSharedMemoryError::InvalidPermission)
        } else if d == KernelError::OutOfResource.spec_description() {
            Err(MapSharedMemoryError::OutOfResource)
        } else if d == KernelError::OutOfMemory.spec_description() {
            Err(MapSharedMemoryError::OutOfMemory)
        } else {
            Err(MapSharedMemoryError::Unknown { rc })
        }
    }
}

/// Classify a map-shared-memory result code.
pub fn classify_map_shared_memory(rc: ResultCode) -> (r: Result<(), MapSharedMemoryError>)
    ensures
        r == spec_classify_map_shared_memory(rc),
        r is Ok <==> rc_is_success(rc),
{
    if rc == 0 {
        return Ok(());
    }
    let d = crate::error::describe_rc(rc);
    if d == KernelError::InvalidHandle.description() {
        Err(MapSharedMemoryError::InvalidHandle)
    } else if d == KernelError::InvalidAddress.description() {
        Err(MapSharedMemoryError::InvalidAddress)
    } else if d == KernelError::InvalidCurrentMemory.description() {
        Err(MapSharedMemoryError::InvalidCurrentMemory)
    } else if d == KernelError::InvalidMemoryRegion.description() {
        Err(MapSharedMemoryError::InvalidMemoryRegion)
    } else if d == KernelError::InvalidSize.description() {
        Err(MapSharedMemoryError::InvalidSize)
    } else if d == KernelError::InvalidNewMemoryPermission.description() {
        Err(MapSharedMemoryError::InvalidPermission)
    } else if d == KernelError::OutOfResource.description() {
        Err(MapSharedMemoryError::OutOfResource)
    } else if d == KernelError::OutOfMemory.description() {
        Err(MapSharedMemoryError::OutOfMemory)
    } else {
        Err(MapSharedMemoryError::Unknown { rc })
    }
}

impl ToRawResultCode for MapSharedMemoryError {
    open spec fn spec_rc(self) -> ResultCode {
        match self {
            MapSharedMemoryError::InvalidHandle => KernelError::InvalidHandle.spec_rc(),
            MapSharedMemoryError::InvalidAddress => KernelError::InvalidAddress.spec_rc(),
            MapSharedMemoryError::InvalidCurrentMemory => {
                KernelError::InvalidCurrentMemory.spec_rc()
            }
            MapSharedMemoryError::InvalidMemoryRegion => {
                KernelError::InvalidMemoryRegion.spec_rc()
            }
            MapSharedMemoryError::InvalidSize => KernelError::InvalidSize.spec_rc(),
            MapSharedMemoryError::InvalidPermission => {
                KernelError::InvalidNewMemoryPermission.spec_rc()
            }
            MapSharedMemoryError::OutOfResource => KernelError::OutOfResource.spec_rc(),
            MapSharedMemoryError::OutOfMemory => KernelError::OutOfMemory.spec_rc(),
            MapSharedMemoryError::Unknown { rc } => rc,
        }
    }

    fn to_rc(self) -> (rc: ResultCode) {
        match self {
            MapSharedMemoryError::InvalidHandle => KernelError::InvalidHandle.to_rc(),
            MapSharedMemoryError::InvalidAddress => KernelError::InvalidAddress.to_rc(),
            MapSharedMemoryError::InvalidCurrentMemory => {
                KernelError::InvalidCurrentMemory.to_rc()
            }
            MapSharedMemoryError::InvalidMemoryRegion => KernelError::InvalidMemoryRegion.to_rc(),
            MapSharedMemoryError::InvalidSize => KernelError::InvalidSize.to_rc(),
            MapSharedMemoryError::InvalidPermission => {
                KernelError::InvalidNewMemoryPermission.to_rc()
            }
            MapSharedMemoryError::OutOfResource => KernelError::OutOfResource.to_rc(),
            MapSharedMemoryError::OutOfMemory => KernelError::OutOfMemory.to_rc(),
            MapSharedMemoryError::Unknown { rc } => rc,
        }
    }
}

/// Failure of unmapping a shared-memory object.
#[derive(Clone, Copy, Debug, PartialEq, Eq, Structural)]
pub enum UnmapSharedMemoryError {
    /// The mapped memory is in the wrong state.
    InvalidCurrentMemory,
    /// The size does not match the mapping.
    InvalidSize,
    /// The range is not a mapping of this object.
    InvalidMemoryRange,
    /// The kernel is out of bookkeeping resources.
    OutOfResource,
    /// A code outside the documented table, carried unchanged.
    Unknown { rc: ResultCode },
}

/// The typed outcome an unmap-shared-memory result code denotes.
pub open spec fn spec_classify_unmap_shared_memory(rc: ResultCode) -> Result<
    (),
    UnmapSharedMemoryError,
> {
    if rc == 0 {
        Ok(())
    } else {
        let d = rc_description(rc);
        if d == KernelError::InvalidCurrentMemory.spec_description() {
            Err(UnmapSharedMemoryError::InvalidCurrentMemory)
        } else if d == KernelError::InvalidSize.spec_description() {
            Err(UnmapSharedMemoryError::InvalidSize)
        } else if d == KernelError::InvalidMemoryRegion.spec_description() {
            Err(UnmapSharedMemoryError::InvalidMemoryRange)
        } else if d == KernelError::OutOfResource.spec_description() {
            Err(UnmapSharedMemoryError::OutOfResource)
        } else {
            Err(UnmapSharedMemoryError::Unknown { rc })
        }
    }
}

/// Classify an unmap-shared-memory result code.
pub fn classify_unmap_shared_memory(rc: ResultCode) -> (r: Result<(), UnmapSharedMemoryError>)
    ensures
        r == spec_classify_unmap_shared_memory(rc),
        r is Ok <==> rc_is_success(rc),
{
    if rc == 0 {
        return Ok(());
    }
    let d = crate::error::describe_rc(rc);
    if d == KernelError::InvalidCurrentMemory.description() {
        Err(UnmapSharedMemoryError::InvalidCurrentMemory)
    } else if d == KernelError::InvalidSize.description() {
        Err(UnmapSharedMemoryError::InvalidSize)
    } else if d == KernelError::InvalidMemoryRegion.description() {
        Err(UnmapSharedMemoryError::InvalidMemoryRange)
    } else if d == KernelError::OutOfResource.description() {
        Err(UnmapSharedMemoryError::OutOfResource)
    } else {
        Err(UnmapSharedMemoryError::Unknown { rc })
    }
}

impl ToRawResultCode for UnmapSharedMemoryError {
    open spec fn spec_rc(self) -> ResultCode {
        match self {
            UnmapSharedMemoryError::InvalidCurrentMemory => {
                KernelError::InvalidCurrentMemory.spec_rc()
            }
            UnmapSharedMemoryError::InvalidSize => KernelError::InvalidSize.spec_rc(),
            UnmapSharedMemoryError::InvalidMemoryRange => {
                KernelError::InvalidMemoryRegion.spec_rc()
            }
            UnmapSharedMemoryError::OutOfResource => KernelError::OutOfResource.spec_rc(),
            UnmapSharedMemoryError::Unknown { rc } => rc,
        }
    }

    fn to_rc(self) -> (rc: ResultCode) {
        match self {
            UnmapSharedMemoryError::InvalidCurrentMemory => {
                KernelError::InvalidCurrentMemory.to_rc()
            }
            UnmapSharedMemoryError::InvalidSize => KernelError::InvalidSize.to_rc(),
            UnmapSharedMemoryError::InvalidMemoryRange => KernelError::InvalidMemoryRegion.to_rc(),
            UnmapSharedMemoryError::OutOfResource => KernelError::OutOfResource.to_rc(),
            UnmapSharedMemoryError::Unknown { rc } => rc,
        }
    }
}

/// Failure of closing a shared-memory handle.
#[derive(Clone, Copy, Debug, PartialEq, Eq, Structural)]
pub enum CloseHandleError {
    /// The handle is invalid.
    InvalidHandle,
    /// A code outside the documented table, carried unchanged.
    Unknown { rc: ResultCode },
}

/// The typed outcome a close-handle result code denotes.
pub open spec fn spec_classify_close_handle(rc: ResultCode) -> Result<(), CloseHandleError> {
    if rc == 0 {
        Ok(())
    } else {
        let d = rc_description(rc);
        if d == KernelError::InvalidHandle.spec_description() {
            Err(CloseHandleError::InvalidHandle)
        } else {
            Err(CloseHandleError::Unknown { rc })
        }
    }
}

/// Classify a close-handle result code.
pub fn classify_close_handle(rc: ResultCode) -> (r: Result<(), CloseHandleError>)
    ensures
        r == spec_classify_close_handle(rc),
        r is Ok <==> rc_is_success(rc),
{
    if rc == 0 {
        return Ok(());
    }
    let d = crate::error::describe_rc(rc);
    if d == KernelError::InvalidHandle.description() {
        Err(CloseHandleError::InvalidHandle)
    } else {
        Err(CloseHandleError::Unknown { rc })
    }
}

impl ToRawResultCode for CloseHandleError {
    open spec fn spec_rc(self) -> ResultCode {
        match self {
            CloseHandleError::InvalidHandle => KernelError::InvalidHandle.spec_rc(),
            CloseHandleError::Unknown { rc } => rc,
        }
    }

    fn to_rc(self) -> (rc: ResultCode) {
        match self {
            CloseHandleError::InvalidHandle => KernelError::InvalidHandle.to_rc(),
            CloseHandleError::Unknown { rc } => rc,
        }
    }
}

} // verus!

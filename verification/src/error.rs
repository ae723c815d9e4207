//! Kernel result codes and their typed shaping.
//!
//! A raw result code packs the reporting module into its low nine bits and an
//! error description into the rest; zero is success. The kernel's documented
//! error descriptions are enumerated as [`KernelError`], and the packing and
//! unpacking arithmetic is proved to be inverse, so typed errors built from a
//! code and codes rebuilt from typed errors cannot drift apart. Codes outside
//! the documented table are carried opaquely, never guessed at.

use vstd::prelude::*;

verus! {

/// A raw kernel result code: zero on success, otherwise module plus
/// description.
pub type ResultCode = u32;

/// An error description value, the part of a result code above the module
/// bits.
pub type Description = u32;

/// Modules low nine bits of a result code can name, as far as this runtime
/// reads or writes them; the kernel's full module table is outside its
/// concern.
#[derive(Clone, Copy, Debug, PartialEq, Eq, Structural)]
pub enum Module {
    /// The kernel itself: supervisor-call errors.
    Kernel,
    /// The operating-system module: memory, thread and mutex services.
    OS,
}

impl Module {
    /// The module's code in the low nine bits of a result code.
    pub open spec fn spec_code(self) -> u32 {
        match self {
            Module::Kernel => 1,
            Module::OS => 3,
        }
    }

    /// The module's code in the low nine bits of a result code.
    pub fn code(self) -> (c: u32)
        ensures
            c == self.spec_code(),
    {
        match self {
            Module::Kernel => 1,
            Module::OS => 3,
        }
    }
}

/// The module identified by the application itself rather than the kernel,
/// used for locally synthesised result codes.
pub const MODULE_APPLICATION: u32 = 345;

/// Converts an error description type into the value used in a result code.
pub trait IntoDescription: Sized {
    /// The description value, as a specification.
    spec fn spec_description_value(self) -> Description;

    /// The description value.
    fn into_value(self) -> (d: Description)
        ensures
            d == self.spec_description_value(),
    ;
}

/// Converts a typed error into the raw result code it stands for.
pub trait ToRawResultCode: Sized {
    /// The raw code, as a specification.
    spec fn spec_rc(self) -> ResultCode;

    /// The raw code.
    fn to_rc(self) -> (rc: ResultCode)
        ensures
            rc == self.spec_rc(),
    ;
}

impl IntoDescription for u32 {
    open spec fn spec_description_value(self) -> Description {
        self
    }

    fn into_value(self) -> (d: Description) {
        self
    }
}

/// The module named by a result code: its low nine bits.
pub open spec fn rc_module(rc: ResultCode) -> u32 {
    rc & 0x1FF
}

/// The description carried by a result code: everything above the module.
pub open spec fn rc_description(rc: ResultCode) -> Description {
    rc >> 9
}

/// Whether a result code reports success.
pub open spec fn rc_is_success(rc: ResultCode) -> bool {
    rc == 0
}

/// Pack a module code and a description into a result code; the two unpack
/// back out unchanged.
pub fn compose_rc(module: u32, desc: Description) -> (rc: ResultCode)
    requires
        module < 0x200,
        desc < 0x80_0000,
    ensures
        rc == (desc << 9) | module,
        rc_module(rc) == module,
        rc_description(rc) == desc,
{
    proof {
        assert(module < 0x200 && desc < 0x80_0000 ==> (((desc << 9) | module) & 0x1FF) == module
            && (((desc << 9) | module) >> 9) == desc) by (bit_vector);
    }
    (desc << 9) | module
}

/// The description carried by a result code.
pub fn describe_rc(rc: ResultCode) -> (d: Description)
    ensures
        d == rc_description(rc),
{
    rc >> 9
}

/// Build an application-level result code: the application module with the
/// given description.
pub fn libnx_rc(desc: Description) -> (rc: ResultCode)
    requires
        desc < 0x80_0000,
    ensures
        rc == (MODULE_APPLICATION & 0x1FF) | (desc << 9),
        rc_module(rc) == MODULE_APPLICATION,
        rc_description(rc) == desc,
{
    proof {
        assert(desc < 0x80_0000 ==> (((345u32 & 0x1FF) | (desc << 9)) & 0x1FF) == 345 && (((345u32
            & 0x1FF) | (desc << 9)) >> 9) == desc) by (bit_vector);
    }
    (MODULE_APPLICATION & 0x1FF) | (desc << 9)
}

/// The kernel's documented error descriptions.
#[derive(Clone, Copy, Debug, PartialEq, Eq, Structural)]
pub enum KernelError {
    OutOfSessions,
    InvalidArgument,
    NotImplemented,
    NoSynchronizationObject,
    TerminationRequested,
    InvalidSize,
    InvalidAddress,
    OutOfResource,
    OutOfMemory,
    OutOfHandles,
    InvalidCurrentMemory,
    InvalidNewMemoryPermission,
    InvalidMemoryRegion,
    InvalidPriority,
    InvalidCoreId,
    InvalidHandle,
    InvalidPointer,
    InvalidCombination,
    TimedOut,
    Cancelled,
    OutOfRange,
    InvalidEnumValue,
    NotFound,
    Busy,
    SessionClosed,
    InvalidState,
    ReservedUsed,
    PortClosed,
    LimitReached,
    ReceiveListBroken,
    OutOfAddressSpace,
    MessageTooLarge,
    InvalidId,
}

impl KernelError {
    /// The description value the kernel uses for this error.
    pub open spec fn spec_description(self) -> Description {
        match self {
            KernelError::OutOfSessions => 7,
            KernelError::InvalidArgument => 14,
            KernelError::NotImplemented => 33,
            KernelError::NoSynchronizationObject => 57,
            KernelError::TerminationRequested => 59,
            KernelError::InvalidSize => 101,
            KernelError::InvalidAddress => 102,
            KernelError::OutOfResource => 103,
            KernelError::OutOfMemory => 104,
            KernelError::OutOfHandles => 105,
            KernelError::InvalidCurrentMemory => 106,
            KernelError::InvalidNewMemoryPermission => 108,
            KernelError::InvalidMemoryRegion => 110,
            KernelError::InvalidPriority => 112,
            KernelError::InvalidCoreId => 113,
            KernelError::InvalidHandle => 114,
            KernelError::InvalidPointer => 115,
            KernelError::InvalidCombination => 116,
            KernelError::TimedOut => 117,
            KernelError::Cancelled => 118,
            KernelError::OutOfRange => 119,
            KernelError::InvalidEnumValue => 120,
            KernelError::NotFound => 121,
            KernelError::Busy => 122,
            KernelError::SessionClosed => 123,
            KernelError::InvalidState => 125,
            KernelError::ReservedUsed => 126,
            KernelError::PortClosed => 131,
            KernelError::LimitReached => 132,
            KernelError::ReceiveListBroken => 258,
            KernelError::OutOfAddressSpace => 259,
            KernelError::MessageTooLarge => 260,
            KernelError::InvalidId => 519,
        }
    }

    /// The description value the kernel uses for this error.
    pub fn description(self) -> (d: Description)
        ensures
            d == self.spec_description(),
    {
        match self {
            KernelError::OutOfSessions => 7,
            KernelError::InvalidArgument => 14,
            KernelError::NotImplemented => 33,
            KernelError::NoSynchronizationObject => 57,
            KernelError::TerminationRequested => 59,
            KernelError::InvalidSize => 101,
            KernelError::InvalidAddress => 102,
            KernelError::OutOfResource => 103,
            KernelError::OutOfMemory => 104,
            KernelError::OutOfHandles => 105,
            KernelError::InvalidCurrentMemory => 106,
            KernelError::InvalidNewMemoryPermission => 108,
            KernelError::InvalidMemoryRegion => 110,
            KernelError::InvalidPriority => 112,
            KernelError::InvalidCoreId => 113,
            KernelError::InvalidHandle => 114,
            KernelError::InvalidPointer => 115,
            KernelError::InvalidCombination => 116,
            KernelError::TimedOut => 117,
            KernelError::Cancelled => 118,
            KernelError::OutOfRange => 119,
            KernelError::InvalidEnumValue => 120,
            KernelError::NotFound => 121,
            KernelError::Busy => 122,
            KernelError::SessionClosed => 123,
            KernelError::InvalidState => 125,
            KernelError::ReservedUsed => 126,
            KernelError::PortClosed => 131,
            KernelError::LimitReached => 132,
            KernelError::ReceiveListBroken => 258,
            KernelError::OutOfAddressSpace => 259,
            KernelError::MessageTooLarge => 260,
            KernelError::InvalidId => 519,
        }
    }

    /// The kernel error a description value denotes, if it is in the
    /// documented table.
    pub open spec fn spec_from_description(d: Description) -> Option<KernelError> {
        if d == 7 {
            Some(KernelError::OutOfSessions)
        } else if d == 14 {
            Some(KernelError::InvalidArgument)
        } else if d == 33 {
            Some(KernelError::NotImplemented)
        } else if d == 57 {
            Some(KernelError::NoSynchronizationObject)
        } else if d == 59 {
            Some(KernelError::TerminationRequested)
        } else if d == 101 {
            Some(KernelError::InvalidSize)
        } else if d == 102 {
            Some(KernelError::InvalidAddress)
        } else if d == 103 {
            Some(KernelError::OutOfResource)
        } else if d == 104 {
            Some(KernelError::OutOfMemory)
        } else if d == 105 {
            Some(KernelError::OutOfHandles)
        } else if d == 106 {
            Some(KernelError::InvalidCurrentMemory)
        } else if d == 108 {
            Some(KernelError::InvalidNewMemoryPermission)
        } else if d == 110 {
            Some(KernelError::InvalidMemoryRegion)
        } else if d == 112 {
            Some(KernelError::InvalidPriority)
        } else if d == 113 {
            Some(KernelError::InvalidCoreId)
        } else if d == 114 {
            Some(KernelError::InvalidHandle)
        } else if d == 115 {
            Some(KernelError::InvalidPointer)
        } else if d == 116 {
            Some(KernelError::InvalidCombination)
        } else if d == 117 {
            Some(KernelError::TimedOut)
        } else if d == 118 {
            Some(KernelError::Cancelled)
        } else if d == 119 {
            Some(KernelError::OutOfRange)
        } else if d == 120 {
            Some(KernelError::InvalidEnumValue)
        } else if d == 121 {
            Some(KernelError::NotFound)
        } else if d == 122 {
            Some(KernelError::Busy)
        } else if d == 123 {
            Some(KernelError::SessionClosed)
        } else if d == 125 {
            Some(KernelError::InvalidState)
        } else if d == 126 {
            Some(KernelError::ReservedUsed)
        } else if d == 131 {
            Some(KernelError::PortClosed)
        } else if d == 132 {
            Some(KernelError::LimitReached)
        } else if d == 258 {
            Some(KernelError::ReceiveListBroken)
        } else if d == 259 {
            Some(KernelError::OutOfAddressSpace)
        } else if d == 260 {
            Some(KernelError::MessageTooLarge)
        } else if d == 519 {
            Some(KernelError::InvalidId)
        } else {
            None
        }
    }

    /// The kernel error a description value denotes, if any.
    pub fn from_description(d: Description) -> (r: Option<KernelError>)
        ensures
            r == KernelError::spec_from_description(d),
    {
        if d == 7 {
            Some(KernelError::OutOfSessions)
        } else if d == 14 {
            Some(KernelError::InvalidArgument)
        } else if d == 33 {
            Some(KernelError::NotImplemented)
        } else if d == 57 {
            Some(KernelError::NoSynchronizationObject)
        } else if d == 59 {
            Some(KernelError::TerminationRequested)
        } else if d == 101 {
            Some(KernelError::InvalidSize)
        } else if d == 102 {
            Some(KernelError::InvalidAddress)
        } else if d == 103 {
            Some(KernelError::OutOfResource)
        } else if d == 104 {
            Some(KernelError::OutOfMemory)
        } else if d == 105 {
            Some(KernelError::OutOfHandles)
        } else if d == 106 {
            Some(KernelError::InvalidCurrentMemory)
        } else if d == 108 {
            Some(KernelError::InvalidNewMemoryPermission)
        } else if d == 110 {
            Some(KernelError::InvalidMemoryRegion)
        } else if d == 112 {
            Some(KernelError::InvalidPriority)
        } else if d == 113 {
            Some(KernelError::InvalidCoreId)
        } else if d == 114 {
            Some(KernelError::InvalidHandle)
        } else if d == 115 {
            Some(KernelError::InvalidPointer)
        } else if d == 116 {
            Some(KernelError::InvalidCombination)
        } else if d == 117 {
            Some(KernelError::TimedOut)
        } else if d == 118 {
            Some(KernelError::Cancelled)
        } else if d == 119 {
            Some(KernelError::OutOfRange)
        } else if d == 120 {
            Some(KernelError::InvalidEnumValue)
        } else if d == 121 {
            Some(KernelError::NotFound)
        } else if d == 122 {
            Some(KernelError::Busy)
        } else if d == 123 {
            Some(KernelError::SessionClosed)
        } else if d == 125 {
            Some(KernelError::InvalidState)
        } else if d == 126 {
            Some(KernelError::ReservedUsed)
        } else if d == 131 {
            Some(KernelError::PortClosed)
        } else if d == 132 {
            Some(KernelError::LimitReached)
        } else if d == 258 {
            Some(KernelError::ReceiveListBroken)
        } else if d == 259 {
            Some(KernelError::OutOfAddressSpace)
        } else if d == 260 {
            Some(KernelError::MessageTooLarge)
        } else if d == 519 {
            Some(KernelError::InvalidId)
        } else {
            None
        }
    }
}

impl IntoDescription for KernelError {
    open spec fn spec_description_value(self) -> Description {
        self.spec_description()
    }

    fn into_value(self) -> (d: Description) {
        self.description()
    }
}

impl ToRawResultCode for KernelError {
    open spec fn spec_rc(self) -> ResultCode {
        (self.spec_description() << 9) | Module::Kernel.spec_code()
    }

    fn to_rc(self) -> (rc: ResultCode) {
        let d = self.description();
        compose_rc(Module::Kernel.code(), d)
    }
}

/// The description table and its reverse lookup are inverse: every documented
/// kernel error survives the round trip through its description value.
pub proof fn lemma_kernel_error_round_trip(e: KernelError)
    ensures
        KernelError::spec_from_description(e.spec_description()) == Some(e),
        rc_description(e.spec_rc()) == e.spec_description(),
        rc_module(e.spec_rc()) == Module::Kernel.spec_code(),
{
    let d = e.spec_description();
    assert(d < 0x80_0000);
    assert(d < 0x80_0000 ==> (((d << 9) | 1u32) & 0x1FF) == 1 && (((d << 9) | 1u32) >> 9) == d)
        by (bit_vector);
}

} // verus!

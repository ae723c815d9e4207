use nx_sync::error::IntoDescription;
use nx_sync::error::KernelError;
use nx_sync::error::MODULE_APPLICATION;
use nx_sync::error::Module;
use nx_sync::error::ToRawResultCode;
use nx_sync::error::compose_rc;
use nx_sync::error::describe_rc;
use nx_sync::error::libnx_rc;
use nx_sync::shmem;
use nx_sync::svc::ArbitrateLockError;
use nx_sync::svc::ArbitrateUnlockError;
use nx_sync::svc::WaitProcessWideKeyError;
use nx_sync::svc::classify_arbitrate_lock;
use nx_sync::svc::classify_arbitrate_unlock;
use nx_sync::svc::classify_wait_process_wide_key;
use nx_sync::tmem;

#[test]
fn kernel_result_codes_pack_and_unpack() {
    let rc = compose_rc(Module::Kernel.code(), 117);
    assert_eq!(rc, 0xEA01);
    assert_eq!(describe_rc(rc), 117);
    assert_eq!(rc & 0x1FF, 1);
}

#[test]
fn known_kernel_error_codes() {
    assert_eq!(KernelError::TimedOut.to_rc(), 0xEA01);
    assert_eq!(KernelError::InvalidAddress.to_rc(), 0xCC01);
    assert_eq!(KernelError::InvalidHandle.to_rc(), 0xE401);
    assert_eq!(KernelError::TerminationRequested.to_rc(), 0x7601);
    assert_eq!(KernelError::TimedOut.into_value(), 117);
    assert_eq!(KernelError::InvalidId.description(), 519);
}

#[test]
fn kernel_error_description_round_trip() {
    for e in [
        KernelError::OutOfSessions,
        KernelError::TerminationRequested,
        KernelError::InvalidAddress,
        KernelError::InvalidHandle,
        KernelError::TimedOut,
        KernelError::LimitReached,
        KernelError::InvalidId,
    ] {
        assert_eq!(KernelError::from_description(e.description()), Some(e));
    }
    assert_eq!(KernelError::from_description(0), None);
    assert_eq!(KernelError::from_description(1000), None);
}

#[test]
fn application_result_codes() {
    assert_eq!(MODULE_APPLICATION, 345);
    let rc = libnx_rc(3);
    assert_eq!(rc, (3 << 9) | 345);
    assert_eq!(describe_rc(rc), 3);
    assert_eq!(rc & 0x1FF, 345);
}

#[test]
fn arbitrate_lock_classification() {
    assert_eq!(classify_arbitrate_lock(0), Ok(()));
    assert_eq!(
        classify_arbitrate_lock(KernelError::InvalidHandle.to_rc()),
        Err(ArbitrateLockError::InvalidHandle)
    );
    assert_eq!(
        classify_arbitrate_lock(KernelError::InvalidAddress.to_rc()),
        Err(ArbitrateLockError::InvalidMemState)
    );
    assert_eq!(
        classify_arbitrate_lock(KernelError::TerminationRequested.to_rc()),
        Err(ArbitrateLockError::ThreadTerminating)
    );
    let odd = compose_rc(Module::Kernel.code(), 9);
    assert_eq!(
        classify_arbitrate_lock(odd),
        Err(ArbitrateLockError::Unknown { rc: odd })
    );
}

#[test]
fn arbitrate_unlock_classification() {
    assert_eq!(classify_arbitrate_unlock(0), Ok(()));
    assert_eq!(
        classify_arbitrate_unlock(KernelError::InvalidAddress.to_rc()),
        Err(ArbitrateUnlockError::InvalidMemState)
    );
    let odd = compose_rc(Module::Kernel.code(), 14);
    assert_eq!(
        classify_arbitrate_unlock(odd),
        Err(ArbitrateUnlockError::Unknown { rc: odd })
    );
}

#[test]
fn wait_classification_and_round_trip() {
    assert_eq!(classify_wait_process_wide_key(0), Ok(()));
    assert_eq!(
        classify_wait_process_wide_key(KernelError::TimedOut.to_rc()),
        Err(WaitProcessWideKeyError::TimedOut)
    );
    assert_eq!(
        classify_wait_process_wide_key(KernelError::TerminationRequested.to_rc()),
        Err(WaitProcessWideKeyError::ThreadTerminating)
    );
    assert_eq!(
        classify_wait_process_wide_key(KernelError::InvalidAddress.to_rc()),
        Err(WaitProcessWideKeyError::InvalidMemState)
    );
    // The typed error rebuilds the code it was classified from.
    assert_eq!(WaitProcessWideKeyError::TimedOut.to_rc(), 0xEA01);
    let odd = compose_rc(Module::Kernel.code(), 122);
    assert_eq!(
        WaitProcessWideKeyError::Unknown { rc: odd }.to_rc(),
        odd
    );
}

#[test]
fn every_map_shared_memory_variant_has_a_code() {
    let cases = [
        (KernelError::InvalidHandle, shmem::MapSharedMemoryError::InvalidHandle),
        (KernelError::InvalidAddress, shmem::MapSharedMemoryError::InvalidAddress),
        (
            KernelError::InvalidCurrentMemory,
            shmem::MapSharedMemoryError::InvalidCurrentMemory,
        ),
        (
            KernelError::InvalidMemoryRegion,
            shmem::MapSharedMemoryError::InvalidMemoryRegion,
        ),
        (KernelError::InvalidSize, shmem::MapSharedMemoryError::InvalidSize),
        (
            KernelError::InvalidNewMemoryPermission,
            shmem::MapSharedMemoryError::InvalidPermission,
        ),
        (KernelError::OutOfResource, shmem::MapSharedMemoryError::OutOfResource),
        (KernelError::OutOfMemory, shmem::MapSharedMemoryError::OutOfMemory),
    ];
    for (k, e) in cases {
        assert_eq!(shmem::classify_map_shared_memory(k.to_rc()), Err(e));
        assert_eq!(e.to_rc(), k.to_rc());
    }
    let odd = compose_rc(Module::Kernel.code(), 14);
    assert_eq!(
        shmem::classify_map_shared_memory(odd),
        Err(shmem::MapSharedMemoryError::Unknown { rc: odd })
    );
    assert_eq!(shmem::MapSharedMemoryError::Unknown { rc: odd }.to_rc(), odd);
}

#[test]
fn every_transfer_memory_variant_has_a_code() {
    let create = [
        (KernelError::InvalidSize, tmem::CreateTransferMemoryError::InvalidSize),
        (KernelError::InvalidAddress, tmem::CreateTransferMemoryError::InvalidAddress),
        (
            KernelError::InvalidNewMemoryPermission,
            tmem::CreateTransferMemoryError::InvalidPermission,
        ),
        (
            KernelError::InvalidCurrentMemory,
            tmem::CreateTransferMemoryError::InvalidMemState,
        ),
        (KernelError::LimitReached, tmem::CreateTransferMemoryError::LimitReached),
    ];
    for (k, e) in create {
        assert_eq!(tmem::classify_create_transfer_memory(k.to_rc()), Err(e));
        assert_eq!(e.to_rc(), k.to_rc());
    }
    let map = [
        (KernelError::InvalidHandle, tmem::MapTransferMemoryError::InvalidHandle),
        (KernelError::InvalidAddress, tmem::MapTransferMemoryError::InvalidAddress),
        (KernelError::InvalidSize, tmem::MapTransferMemoryError::InvalidSize),
        (
            KernelError::InvalidCurrentMemory,
            tmem::MapTransferMemoryError::InvalidCurrentMemory,
        ),
        (
            KernelError::InvalidMemoryRegion,
            tmem::MapTransferMemoryError::InvalidMemoryRegion,
        ),
        (
            KernelError::InvalidNewMemoryPermission,
            tmem::MapTransferMemoryError::InvalidPermission,
        ),
    ];
    for (k, e) in map {
        assert_eq!(tmem::classify_map_transfer_memory(k.to_rc()), Err(e));
        assert_eq!(e.to_rc(), k.to_rc());
    }
    let unmap = [
        (KernelError::InvalidHandle, tmem::UnmapTransferMemoryError::InvalidHandle),
        (KernelError::InvalidAddress, tmem::UnmapTransferMemoryError::InvalidAddress),
        (KernelError::InvalidSize, tmem::UnmapTransferMemoryError::InvalidSize),
        (
            KernelError::InvalidCurrentMemory,
            tmem::UnmapTransferMemoryError::InvalidCurrentMemory,
        ),
        (
            KernelError::InvalidMemoryRegion,
            tmem::UnmapTransferMemoryError::InvalidMemoryRegion,
        ),
    ];
    for (k, e) in unmap {
        assert_eq!(tmem::classify_unmap_transfer_memory(k.to_rc()), Err(e));
        assert_eq!(e.to_rc(), k.to_rc());
    }
}

#[test]
fn unknown_codes_pass_through_unchanged() {
    let odd = compose_rc(Module::Kernel.code(), 33);
    assert_eq!(
        shmem::classify_create_shared_memory(odd),
        Err(shmem::CreateSharedMemoryError::Unknown { rc: odd })
    );
    assert_eq!(shmem::CreateSharedMemoryError::Unknown { rc: odd }.to_rc(), odd);
    assert_eq!(
        shmem::classify_unmap_shared_memory(odd),
        Err(shmem::UnmapSharedMemoryError::Unknown { rc: odd })
    );
    assert_eq!(
        shmem::classify_close_handle(odd),
        Err(shmem::CloseHandleError::Unknown { rc: odd })
    );
    assert_eq!(
        tmem::classify_create_transfer_memory(odd),
        Err(tmem::CreateTransferMemoryError::Unknown { rc: odd })
    );
    assert_eq!(
        tmem::classify_map_transfer_memory(odd),
        Err(tmem::MapTransferMemoryError::Unknown { rc: odd })
    );
    assert_eq!(
        tmem::classify_unmap_transfer_memory(odd),
        Err(tmem::UnmapTransferMemoryError::Unknown { rc: odd })
    );
}

#[test]
fn shared_memory_classification() {
    assert_eq!(shmem::classify_create_shared_memory(0), Ok(()));
    assert_eq!(
        shmem::classify_create_shared_memory(KernelError::OutOfMemory.to_rc()),
        Err(shmem::CreateSharedMemoryError::OutOfMemory)
    );
    assert_eq!(
        shmem::classify_create_shared_memory(KernelError::LimitReached.to_rc()),
        Err(shmem::CreateSharedMemoryError::LimitReached)
    );
    assert_eq!(
        shmem::classify_map_shared_memory(KernelError::InvalidNewMemoryPermission.to_rc()),
        Err(shmem::MapSharedMemoryError::InvalidPermission)
    );
    assert_eq!(
        shmem::classify_unmap_shared_memory(KernelError::InvalidMemoryRegion.to_rc()),
        Err(shmem::UnmapSharedMemoryError::InvalidMemoryRange)
    );
    assert_eq!(
        shmem::classify_unmap_shared_memory(KernelError::InvalidCurrentMemory.to_rc()),
        Err(shmem::UnmapSharedMemoryError::InvalidCurrentMemory)
    );
    assert_eq!(
        shmem::classify_unmap_shared_memory(KernelError::InvalidSize.to_rc()),
        Err(shmem::UnmapSharedMemoryError::InvalidSize)
    );
    assert_eq!(
        shmem::classify_unmap_shared_memory(KernelError::OutOfResource.to_rc()),
        Err(shmem::UnmapSharedMemoryError::OutOfResource)
    );
    assert_eq!(
        shmem::classify_close_handle(0),
        Ok(())
    );
    assert_eq!(
        shmem::classify_close_handle(KernelError::InvalidHandle.to_rc()),
        Err(shmem::CloseHandleError::InvalidHandle)
    );
    assert_eq!(
        shmem::MapSharedMemoryError::OutOfResource.to_rc(),
        KernelError::OutOfResource.to_rc()
    );
}

#[test]
fn transfer_memory_classification() {
    assert_eq!(tmem::classify_create_transfer_memory(0), Ok(()));
    assert_eq!(
        tmem::classify_create_transfer_memory(KernelError::InvalidCurrentMemory.to_rc()),
        Err(tmem::CreateTransferMemoryError::InvalidMemState)
    );
    assert_eq!(
        tmem::classify_map_transfer_memory(KernelError::InvalidHandle.to_rc()),
        Err(tmem::MapTransferMemoryError::InvalidHandle)
    );
    assert_eq!(
        tmem::classify_unmap_transfer_memory(KernelError::InvalidSize.to_rc()),
        Err(tmem::UnmapTransferMemoryError::InvalidSize)
    );
    assert_eq!(
        tmem::classify_close_handle(12345),
        Err(tmem::CloseHandleError::Unknown { rc: 12345 })
    );
    assert_eq!(
        tmem::CreateTransferMemoryError::LimitReached.to_rc(),
        KernelError::LimitReached.to_rc()
    );
}

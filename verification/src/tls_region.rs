//! The thread-local region and its ThreadVars footer.
//!
//! Every thread owns a fixed 0x200-byte block whose base address the kernel
//! exposes through a read-only CPU register. Its last 0x20 bytes are the
//! ThreadVars footer: a magic sentinel, the thread's kernel handle, and three
//! bookkeeping pointers. The footer is written once at thread start-up and —
//! except for the thread-info pointer — read-only afterwards. The layout is
//! part of the kernel interface: the footer sits at base + 0x1E0 and the
//! handle field at base + 0x1E4, and the address arithmetic here is proved to
//! land exactly there.

use vstd::prelude::*;

verus! {

/// Size of a thread-local region.
pub const TLS_REGION_SIZE: usize = 0x200;

/// Start of the user-mode part of the region: the dynamic slot array.
pub const USER_TLS_REGION_BEGIN: usize = 0x108;

/// End of the user-mode part; the ThreadVars footer follows.
pub const USER_TLS_REGION_END: usize = TLS_REGION_SIZE - THREAD_VARS_SIZE;

/// Size of the ThreadVars footer.
pub const THREAD_VARS_SIZE: usize = 0x20;

/// Size of one dynamic slot: a pointer, eight bytes.
pub const TLS_SLOT_SIZE: usize = 8;

/// Number of pointer-sized dynamic slots between the user region's start and
/// the footer.
pub const NUM_TLS_SLOTS: usize = (USER_TLS_REGION_END - USER_TLS_REGION_BEGIN) / TLS_SLOT_SIZE;

/// Magic value marking an initialised ThreadVars footer: the ASCII bytes of
/// "!TV$".
pub const THREAD_VARS_MAGIC: u32 = 0x21545624;

/// The slot count follows from the layout: twenty-seven slots.
pub proof fn lemma_slot_count()
    ensures
        NUM_TLS_SLOTS == 27,
        USER_TLS_REGION_END == 0x1E0,
{
}

/// The ThreadVars footer, as plain values: the kernel handle identifying the
/// thread, and the bookkeeping pointers as addresses.
#[derive(Clone, Copy, Debug, PartialEq, Eq, Structural)]
pub struct ThreadVars {
    /// Magic sentinel; must equal [`THREAD_VARS_MAGIC`] before any other
    /// field is trusted.
    pub magic: u32,
    /// Kernel handle (tag) of the thread.
    pub handle: u32,
    /// Address of the thread's higher-level descriptor, if attached.
    pub thread_info_ptr: u64,
    /// Address of the thread's C-library re-entrancy state.
    pub reent: u64,
    /// Thread-pointer value handed to compiler-generated thread-local
    /// accesses; ordinarily the region's base address.
    pub tls_ptr: u64,
}

impl ThreadVars {
    /// The footer has been written by thread start-up.
    pub open spec fn is_initialised(self) -> bool {
        self.magic == THREAD_VARS_MAGIC
    }
}

/// Initialise a thread's ThreadVars footer, exactly once during thread
/// start-up: the supplied values are stored verbatim and the magic sentinel
/// is set.
pub fn init_thread_vars(handle: u32, thread_info_ptr: u64, reent: u64, tls_ptr: u64) -> (tv:
    ThreadVars)
    ensures
        tv.magic == THREAD_VARS_MAGIC,
        tv.handle == handle,
        tv.thread_info_ptr == thread_info_ptr,
        tv.reent == reent,
        tv.tls_ptr == tls_ptr,
        tv.is_initialised(),
{
    ThreadVars { magic: THREAD_VARS_MAGIC, handle, thread_info_ptr, reent, tls_ptr }
}

/// Read the current thread's kernel handle from its footer.
///
/// Readers must not trust the footer before the magic sentinel is in place,
/// so an initialised footer is required.
pub fn get_current_thread_handle(tv: &ThreadVars) -> (handle: u32)
    requires
        tv.is_initialised(),
    ensures
        handle == tv.handle,
{
    tv.handle
}

/// Read the attached thread-descriptor address.
pub fn get_thread_info_ptr(tv: &ThreadVars) -> (p: u64)
    requires
        tv.is_initialised(),
    ensures
        p == tv.thread_info_ptr,
{
    tv.thread_info_ptr
}

/// Attach or detach the thread's higher-level descriptor: the one footer
/// field a thread may update after initialisation. Everything else is kept.
pub fn set_thread_info_ptr(tv: &mut ThreadVars, p: u64)
    requires
        old(tv).is_initialised(),
    ensures
        final(tv).thread_info_ptr == p,
        final(tv).magic == old(tv).magic,
        final(tv).handle == old(tv).handle,
        final(tv).reent == old(tv).reent,
        final(tv).tls_ptr == old(tv).tls_ptr,
        final(tv).is_initialised(),
{
    tv.thread_info_ptr = p;
}

/// Address of the ThreadVars footer inside the region at `base`: the last
/// 0x20 bytes, at base + 0x1E0.
pub fn thread_vars_addr(base: u64) -> (addr: u64)
    requires
        base + TLS_REGION_SIZE <= u64::MAX,
    ensures
        addr == base + TLS_REGION_SIZE - THREAD_VARS_SIZE,
        addr == base + 0x1E0,
{
    base + (TLS_REGION_SIZE - THREAD_VARS_SIZE) as u64
}

/// Address of the handle field inside the region at `base`: base + 0x1E4,
/// the offset the kernel interface fixes for the thread's tag.
pub fn handle_field_addr(base: u64) -> (addr: u64)
    requires
        base + TLS_REGION_SIZE <= u64::MAX,
    ensures
        addr == base + 0x1E4,
{
    base + 0x1E4
}

/// Address of dynamic slot `slot` inside the region at `base`.
pub fn slot_addr(base: u64, slot: usize) -> (addr: u64)
    requires
        base + TLS_REGION_SIZE <= u64::MAX,
        slot < NUM_TLS_SLOTS,
    ensures
        addr == base + USER_TLS_REGION_BEGIN + slot * TLS_SLOT_SIZE,
        base + USER_TLS_REGION_BEGIN <= addr,
        addr + TLS_SLOT_SIZE <= base + USER_TLS_REGION_END,
{
    base + USER_TLS_REGION_BEGIN as u64 + (slot * TLS_SLOT_SIZE) as u64
}

/// Offset of a thread's initialised thread-local data within its block: past
/// the two pointer-sized control-block fields, or further if the linker
/// demands a stricter alignment.
pub fn start_offset(tls_align: usize) -> (off: usize)
    ensures
        off == if tls_align > 16 {
            tls_align as int
        } else {
            16int
        },
        off >= 2 * TLS_SLOT_SIZE,
{
    let tcb_sz: usize = 2 * TLS_SLOT_SIZE;
    if tls_align > tcb_sz {
        tls_align
    } else {
        tcb_sz
    }
}

/// The user-mode contents of one thread's region: the dynamic slot array and
/// the ThreadVars footer. Each slot holds a pointer-sized value.
pub struct TlsRegion {
    /// The dynamic slots, exactly [`NUM_TLS_SLOTS`] of them.
    pub slots: Vec<u64>,
    /// The ThreadVars footer.
    pub vars: ThreadVars,
}

impl TlsRegion {
    /// The region's shape never changes: the slot array has its fixed size.
    pub open spec fn wf(self) -> bool {
        self.slots@.len() == NUM_TLS_SLOTS
    }

    /// A fresh region for a starting thread: slots cleared, footer written.
    pub fn new(handle: u32, thread_info_ptr: u64, reent: u64, tls_ptr: u64) -> (r: TlsRegion)
        ensures
            r.wf(),
            r.vars == (ThreadVars {
                magic: THREAD_VARS_MAGIC,
                handle,
                thread_info_ptr,
                reent,
                tls_ptr,
            }),
            forall|i: int| 0 <= i < NUM_TLS_SLOTS ==> r.slots@[i] == 0,
    {
        let mut slots: Vec<u64> = Vec::new();
        let mut i: usize = 0;
        while i < NUM_TLS_SLOTS
            invariant
                0 <= i <= NUM_TLS_SLOTS,
                slots@.len() == i,
                forall|j: int| 0 <= j < i ==> slots@[j] == 0,
            decreases NUM_TLS_SLOTS - i,
        {
            slots.push(0);
            i = i + 1;
        }
        TlsRegion { slots, vars: init_thread_vars(handle, thread_info_ptr, reent, tls_ptr) }
    }

    /// Read dynamic slot `slot`; a slot identifier out of range yields
    /// nothing rather than touching neighbouring memory.
    pub fn slot_get(&self, slot: usize) -> (r: Option<u64>)
        requires
            self.wf(),
        ensures
            r == if slot < NUM_TLS_SLOTS {
                Some(self.slots@[slot as int])
            } else {
                None::<u64>
            },
    {
        if slot < NUM_TLS_SLOTS {
            Some(self.slots[slot])
        } else {
            None
        }
    }

    /// Write dynamic slot `slot`; reports whether the identifier was in
    /// range, leaving the region untouched when it was not.
    pub fn slot_set(&mut self, slot: usize, value: u64) -> (ok: bool)
        requires
            old(self).wf(),
        ensures
            final(self).wf(),
            final(self).vars == old(self).vars,
            ok == (slot < NUM_TLS_SLOTS),
            ok ==> final(self).slots@ == old(self).slots@.update(slot as int, value),
            !ok ==> final(self).slots@ == old(self).slots@,
    {
        if slot < NUM_TLS_SLOTS {
            self.slots.set(slot, value);
            true
        } else {
            false
        }
    }
}

} // verus!

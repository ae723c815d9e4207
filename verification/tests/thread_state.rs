use nx_sync::panic_buf::Cursor;
use nx_sync::registry::Registry;
use nx_sync::tls_region::NUM_TLS_SLOTS;
use nx_sync::tls_region::THREAD_VARS_MAGIC;
use nx_sync::tls_region::TlsRegion;
use nx_sync::tls_region::get_current_thread_handle;
use nx_sync::tls_region::handle_field_addr;
use nx_sync::tls_region::init_thread_vars;
use nx_sync::tls_region::set_thread_info_ptr;
use nx_sync::tls_region::slot_addr;
use nx_sync::tls_region::start_offset;
use nx_sync::tls_region::thread_vars_addr;

#[test]
fn thread_vars_round_trip() {
    let tv = init_thread_vars(7, 0x1000, 0x2000, 0x3000);
    assert_eq!(tv.magic, 0x21545624);
    assert_eq!(tv.magic, THREAD_VARS_MAGIC);
    assert_eq!(tv.handle, 7);
    assert_eq!(tv.thread_info_ptr, 0x1000);
    assert_eq!(tv.reent, 0x2000);
    assert_eq!(tv.tls_ptr, 0x3000);
    assert_eq!(get_current_thread_handle(&tv), 7);
}

#[test]
fn thread_info_ptr_is_the_one_mutable_field() {
    let mut tv = init_thread_vars(9, 0, 0x2000, 0x3000);
    set_thread_info_ptr(&mut tv, 0x4444);
    assert_eq!(tv.thread_info_ptr, 0x4444);
    assert_eq!(tv.magic, THREAD_VARS_MAGIC);
    assert_eq!(tv.handle, 9);
    assert_eq!(tv.reent, 0x2000);
    assert_eq!(tv.tls_ptr, 0x3000);
}

#[test]
fn layout_offsets_match_the_kernel_interface() {
    assert_eq!(NUM_TLS_SLOTS, 27);
    let base = 0x8000_0000u64;
    assert_eq!(thread_vars_addr(base), base + 0x1E0);
    assert_eq!(handle_field_addr(base), base + 0x1E4);
    assert_eq!(slot_addr(base, 0), base + 0x108);
    assert_eq!(slot_addr(base, 26), base + 0x108 + 26 * 8);
}

#[test]
fn start_offset_honours_the_linker_alignment() {
    assert_eq!(start_offset(0), 16);
    assert_eq!(start_offset(8), 16);
    assert_eq!(start_offset(16), 16);
    assert_eq!(start_offset(32), 32);
}

#[test]
fn dynamic_slots_read_back_and_reject_bad_ids() {
    let mut region = TlsRegion::new(7, 0, 0, 0);
    assert_eq!(region.slot_get(0), Some(0));
    assert!(region.slot_set(3, 0xABCD));
    assert_eq!(region.slot_get(3), Some(0xABCD));
    assert_eq!(region.slot_get(2), Some(0));
    assert!(!region.slot_set(27, 1));
    assert_eq!(region.slot_get(27), None);
    assert_eq!(region.slot_get(3), Some(0xABCD));
}

#[test]
fn registry_enumerates_exactly_the_live_set() {
    let mut reg = Registry::new();
    reg.insert(1);
    reg.insert(2);
    reg.insert(3);
    let mut seen = reg.snapshot();
    seen.sort();
    assert_eq!(seen, vec![1, 2, 3]);
    reg.remove(2);
    let mut seen = reg.snapshot();
    seen.sort();
    assert_eq!(seen, vec![1, 3]);
    assert!(reg.contains(1));
    assert!(!reg.contains(2));
    assert!(reg.contains(3));
    assert_eq!(reg.len(), 2);
}

#[test]
fn registry_visitor_sees_every_thread() {
    let mut reg = Registry::new();
    reg.insert(40);
    reg.insert(41);
    reg.for_each(&|t: u32| {
        assert!(t == 40 || t == 41);
    });
}

#[test]
fn panic_buffer_truncates_rather_than_overflowing() {
    let mut c = Cursor::new(vec![0u8; 8]);
    assert_eq!(c.position(), 0);
    assert_eq!(c.write_bytes(b"abc"), 3);
    assert_eq!(c.position(), 3);
    assert_eq!(c.write_bytes(b"defghijk"), 5);
    assert_eq!(c.position(), 8);
    assert_eq!(&c.buf, b"abcdefgh");
    assert_eq!(c.write_bytes(b"zzz"), 0);
    assert_eq!(c.position(), 8);
    assert_eq!(&c.buf, b"abcdefgh");
}

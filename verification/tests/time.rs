use nx_sync::common::AsInner;
use nx_sync::common::FromInner;
use nx_sync::common::IntoInner;
use nx_sync::ticks::cpu_ticks_to_ns;
use nx_sync::ticks::ns_to_cpu_ticks;
use nx_sync::time::Duration;
use nx_sync::time::Instant;
use nx_sync::time::SystemTime;
use nx_sync::time::Timespec;

#[test]
fn timespec_accessors() {
    let t = Timespec::new(5, 123_456_789);
    assert_eq!(t.sec(), 5);
    assert_eq!(t.nsec(), 123_456_789);
    let z = Timespec::zero();
    assert_eq!(z.sec(), 0);
    assert_eq!(z.nsec(), 0);
}

#[test]
fn timespec_orders_chronologically() {
    assert!(Timespec::new(3, 5) < Timespec::new(3, 6));
    assert!(Timespec::new(2, 999_999_999) < Timespec::new(3, 0));
    assert!(Timespec::new(-1, 999_999_999) < Timespec::zero());
}

#[test]
fn timespec_subtraction_forwards_and_backwards() {
    let a = Timespec::new(5, 500_000_000);
    let b = Timespec::new(3, 800_000_000);
    let d = a.sub_timespec(&b).unwrap();
    assert_eq!(d.as_secs(), 1);
    assert_eq!(d.subsec_nanos(), 700_000_000);
    let e = b.sub_timespec(&a).unwrap_err();
    assert_eq!(e.as_secs(), 1);
    assert_eq!(e.subsec_nanos(), 700_000_000);
    let same = a.sub_timespec(&a).unwrap();
    assert_eq!(same.as_secs(), 0);
    assert_eq!(same.subsec_nanos(), 0);
}

#[test]
fn timespec_subtraction_across_negative_seconds() {
    let a = Timespec::new(0, 100_000_000);
    let b = Timespec::new(-2, 900_000_000);
    let d = a.sub_timespec(&b).unwrap();
    assert_eq!(d.as_secs(), 1);
    assert_eq!(d.subsec_nanos(), 200_000_000);
}

#[test]
fn checked_add_duration_carries_nanoseconds() {
    let t = Timespec::new(1, 900_000_000);
    let d = Duration::new(2, 200_000_000);
    let r = t.checked_add_duration(&d).unwrap();
    assert_eq!(r.sec(), 4);
    assert_eq!(r.nsec(), 100_000_000);
}

#[test]
fn checked_add_duration_reports_overflow() {
    let t = Timespec::new(i64::MAX, 999_999_999);
    assert!(t.checked_add_duration(&Duration::new(0, 1)).is_none());
    assert!(t.checked_add_duration(&Duration::new(0, 0)).is_some());
}

#[test]
fn checked_sub_duration_borrows_nanoseconds() {
    let t = Timespec::new(1, 100_000_000);
    let d = Duration::new(0, 200_000_000);
    let r = t.checked_sub_duration(&d).unwrap();
    assert_eq!(r.sec(), 0);
    assert_eq!(r.nsec(), 900_000_000);
}

#[test]
fn checked_sub_duration_reports_underflow() {
    let t = Timespec::new(i64::MIN, 0);
    assert!(t.checked_sub_duration(&Duration::new(0, 1)).is_none());
    assert!(t.checked_sub_duration(&Duration::new(0, 0)).is_some());
}

#[test]
fn system_time_arithmetic() {
    let earlier = SystemTime::from_timespec(Timespec::new(100, 0));
    let later = SystemTime::from_timespec(Timespec::new(101, 500_000_000));
    let d = later.sub_time(&earlier).unwrap();
    assert_eq!(d.as_secs(), 1);
    assert_eq!(d.subsec_nanos(), 500_000_000);
    let back = earlier.sub_time(&later).unwrap_err();
    assert_eq!(back.as_secs(), 1);
    let moved = earlier.checked_add_duration(&Duration::new(5, 0)).unwrap();
    assert_eq!(moved.t.sec(), 105);
    let back = moved.checked_sub_duration(&Duration::new(5, 0)).unwrap();
    assert_eq!(back.t.sec(), 100);
}

#[test]
fn instant_arithmetic_never_goes_backwards() {
    let start = Instant::from_timespec(Timespec::new(50, 0));
    let end = Instant::from_timespec(Timespec::new(51, 250_000_000));
    let d = end.checked_sub_instant(&start).unwrap();
    assert_eq!(d.as_secs(), 1);
    assert_eq!(d.subsec_nanos(), 250_000_000);
    assert!(start.checked_sub_instant(&end).is_none());
    let moved = start.checked_add_duration(&Duration::new(1, 0)).unwrap();
    assert_eq!(moved.t.sec(), 51);
    let back = moved.checked_sub_duration(&Duration::new(2, 0)).unwrap();
    assert_eq!(back.t.sec(), 49);
}

#[test]
fn inner_representation_conversions() {
    let ts = Timespec::new(7, 5);
    let st = SystemTime::from_inner(ts);
    assert_eq!(st.as_inner().sec(), 7);
    assert_eq!(st.into_inner().nsec(), 5);
    let inst = Instant::from_inner(ts);
    assert_eq!(inst.as_inner().sec(), 7);
    assert_eq!(inst.into_inner().nsec(), 5);
}

#[test]
fn tick_conversions_match_the_counter_frequency() {
    // The counter runs at 19.2 MHz: one second is 19 200 000 ticks.
    assert_eq!(ns_to_cpu_ticks(1_000_000_000), 19_200_000);
    assert_eq!(cpu_ticks_to_ns(19_200_000), 1_000_000_000);
    assert_eq!(ns_to_cpu_ticks(625), 12);
    assert_eq!(cpu_ticks_to_ns(12), 625);
    assert_eq!(ns_to_cpu_ticks(0), 0);
    assert_eq!(cpu_ticks_to_ns(0), 0);
}

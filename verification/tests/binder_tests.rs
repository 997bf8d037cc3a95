use easyfps::binder::{
    is_valid_frame_time, is_valid_reading, TargetBinder, MAX_FRAME_MICROS, MIN_FRAME_MICROS,
    NO_TARGET,
};
use easyfps::decimal::FrameReading;

#[test]
fn new_binder_is_unbound() {
    let binder = TargetBinder::new();
    assert_eq!(binder.current(), NO_TARGET);
    assert!(!binder.is_bound());
}

#[test]
fn bind_reports_a_change_once() {
    let mut binder = TargetBinder::new();
    assert!(binder.bind(42));
    assert_eq!(binder.current(), 42);
    assert!(binder.is_bound());
    assert!(!binder.bind(42));
    assert_eq!(binder.current(), 42);
    assert!(binder.bind(43));
    assert_eq!(binder.current(), 43);
    assert!(binder.bind(NO_TARGET));
    assert!(!binder.is_bound());
}

#[test]
fn valid_frame_times_are_one_millisecond_to_one_second() {
    assert_eq!(MIN_FRAME_MICROS, 1_000);
    assert_eq!(MAX_FRAME_MICROS, 1_000_000);
    assert!(!is_valid_frame_time(0));
    assert!(!is_valid_frame_time(500));
    assert!(!is_valid_frame_time(999));
    assert!(is_valid_frame_time(1_000));
    assert!(is_valid_frame_time(16_600));
    assert!(is_valid_frame_time(1_000_000));
    assert!(!is_valid_frame_time(1_000_001));
    assert!(!is_valid_frame_time(1_500_000));
    assert!(!is_valid_frame_time(u64::MAX));
}

#[test]
fn accept_needs_the_bound_process() {
    let mut binder = TargetBinder::new();
    binder.bind(100);
    assert!(binder.accept(100, 16_600));
    assert!(!binder.accept(101, 16_600));
    assert!(!binder.accept(0, 16_600));
}

#[test]
fn accept_needs_a_valid_frame_time() {
    let mut binder = TargetBinder::new();
    binder.bind(100);
    assert!(!binder.accept(100, 500));
    assert!(!binder.accept(100, 1_500_000));
    assert!(binder.accept(100, 1_000));
    assert!(binder.accept(100, 1_000_000));
}

#[test]
fn unbound_binder_accepts_nothing() {
    let binder = TargetBinder::new();
    assert!(!binder.accept(0, 16_600));
    assert!(!binder.accept(7, 16_600));
}

#[test]
fn readings_are_held_to_the_range_as_written() {
    let reading = |micros: u64, cut: bool| FrameReading { micros, cut };
    assert!(!is_valid_reading(reading(999, true)));
    assert!(!is_valid_reading(reading(999, false)));
    assert!(is_valid_reading(reading(1_000, false)));
    assert!(is_valid_reading(reading(1_000, true)));
    assert!(is_valid_reading(reading(999_999, true)));
    assert!(is_valid_reading(reading(1_000_000, false)));
    assert!(!is_valid_reading(reading(1_000_000, true)));
    assert!(!is_valid_reading(reading(1_000_001, false)));
    assert!(!is_valid_reading(reading(u64::MAX, true)));
}

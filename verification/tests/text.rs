use wasm_runner::clock::{narrow_nsec, nsec_since};
use wasm_runner::text::{decimal, report_line, snapshot_failure_line};

#[test]
fn numbers_in_decimal() {
    assert_eq!(decimal(0), "0");
    assert_eq!(decimal(7), "7");
    assert_eq!(decimal(10), "10");
    assert_eq!(decimal(99), "99");
    assert_eq!(decimal(100), "100");
    assert_eq!(decimal(1_234_567_890), "1234567890");
    assert_eq!(decimal(u32::MAX), "4294967295");
    for n in (0..5000u32).chain([65_535, 65_536, 999_999_999, 1_000_000_000]) {
        assert_eq!(decimal(n), n.to_string());
    }
}

#[test]
fn report_lines() {
    assert_eq!(report_line("boot", "trap"), "in boot: trap");
    assert_eq!(report_line("entry12", ""), "in entry12: ");
    assert_eq!(snapshot_failure_line("disk full"), "while writing coredump: disk full");
}

#[test]
fn nanoseconds_fit_64_bits_or_are_dropped() {
    assert_eq!(narrow_nsec(0), Some(0));
    assert_eq!(narrow_nsec(1_500_000_000), Some(1_500_000_000));
    assert_eq!(narrow_nsec(u64::MAX as u128), Some(u64::MAX));
    assert_eq!(narrow_nsec(u64::MAX as u128 + 1), None);
    assert_eq!(narrow_nsec(u128::MAX), None);
}

#[test]
fn narrowing_keeps_the_order() {
    let counts = [0u128, 1, 999, 1 << 32, 1 << 63, u64::MAX as u128];
    for pair in counts.windows(2) {
        assert!(narrow_nsec(pair[0]).unwrap() <= narrow_nsec(pair[1]).unwrap());
    }
}

#[test]
fn nanoseconds_between_two_readings() {
    let origin = std::time::Instant::now();
    let later = origin + std::time::Duration::new(2, 500);
    assert_eq!(nsec_since(origin, later), Some(2_000_000_500));
    assert_eq!(nsec_since(origin, origin), Some(0));
    assert_eq!(nsec_since(later, origin), Some(0));
    let far = origin + std::time::Duration::from_secs(3600);
    assert_eq!(nsec_since(origin, far), Some(3_600_000_000_000));
}

use aht10::timing::{poll_cycles, settle_cycles, POLL_MILLIS, SETTLE_MILLIS};

#[test]
fn waits_are_twenty_and_ten_milliseconds() {
    assert_eq!(SETTLE_MILLIS, 20);
    assert_eq!(POLL_MILLIS, 10);
}

#[test]
fn settle_time_scales_with_the_clock() {
    assert_eq!(settle_cycles(8_000_000), 160_000);
    assert_eq!(settle_cycles(72_000_000), 1_440_000);
    assert_eq!(settle_cycles(1_000), 20);
}

#[test]
fn poll_pause_scales_with_the_clock() {
    assert_eq!(poll_cycles(8_000_000), 80_000);
    assert_eq!(poll_cycles(72_000_000), 720_000);
    assert_eq!(poll_cycles(1_000), 10);
}

#[test]
fn waits_round_down() {
    assert_eq!(settle_cycles(999), 19);
    assert_eq!(settle_cycles(49), 0);
    assert_eq!(settle_cycles(50), 1);
    assert_eq!(poll_cycles(999), 9);
    assert_eq!(poll_cycles(99), 0);
    assert_eq!(poll_cycles(100), 1);
}

#[test]
fn waits_at_the_ends_of_the_clock_range() {
    assert_eq!(settle_cycles(0), 0);
    assert_eq!(poll_cycles(0), 0);
    assert_eq!(settle_cycles(u32::MAX), 85_899_345);
    assert_eq!(poll_cycles(u32::MAX), 42_949_672);
}

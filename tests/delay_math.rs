use bl602_hal::delay::McycleDelay;

#[test]
fn elapsed_without_wrap() {
    assert_eq!(McycleDelay::elapsed_cycles(100, 250), 150);
    assert_eq!(McycleDelay::elapsed_cycles(7, 7), 0);
}

#[test]
fn elapsed_across_counter_wrap() {
    let start = u64::MAX - 5;
    assert_eq!(McycleDelay::elapsed_cycles(start, 10), 16);
    assert_eq!(McycleDelay::elapsed_cycles(u64::MAX, 0), 1);
    assert_eq!(McycleDelay::elapsed_cycles(1, 0), u64::MAX);
}

#[test]
fn wait_finishes_only_past_the_count() {
    assert!(!McycleDelay::wait_finished(1000, 1100, 100));
    assert!(McycleDelay::wait_finished(1000, 1101, 100));
    assert!(!McycleDelay::wait_finished(u64::MAX - 1, 98, 100));
    assert!(McycleDelay::wait_finished(u64::MAX - 1, 99, 100));
    assert!(!McycleDelay::wait_finished(5, 5, 0));
    assert!(McycleDelay::wait_finished(5, 6, 0));
}

#[test]
fn time_to_cycle_conversion() {
    let d = McycleDelay::new(160_000_000);
    assert_eq!(d.us_to_cycles(1), 160);
    assert_eq!(d.us_to_cycles(0), 0);
    assert_eq!(d.ms_to_cycles(1), 160_000);
    assert_eq!(d.ms_to_cycles(250), 40_000_000);
    let slow = McycleDelay::new(32_768);
    // 32.768 cycles rounded down
    assert_eq!(slow.us_to_cycles(1000), 32);
    assert_eq!(slow.ms_to_cycles(3), 98);
}

#[test]
fn doubling_a_delay_never_shortens_it() {
    let d = McycleDelay::new(32_768);
    for t in [0u64, 1, 30, 31, 1_000, 123_457] {
        let one = d.us_to_cycles(t);
        let two = d.us_to_cycles(2 * t);
        assert!(two >= one);
        // more than `one` whole cycles is at least the requested time
        assert!((one + 1) * 1_000_000 > t * 32_768);
        assert!((two + 1) * 1_000_000 > 2 * t * 32_768);
        assert!(d.ms_to_cycles(2 * t) >= d.ms_to_cycles(t));
    }
}

#[test]
fn largest_delay_within_limits() {
    let d = McycleDelay::new(u32::MAX);
    let us = u64::MAX / u32::MAX as u64;
    assert_eq!(d.us_to_cycles(us), (us * u32::MAX as u64) / 1_000_000);
}

use flashblocks::limits::{partition_time_into_flashblocks, FlashblockLimits, Limits};
use flashblocks::FlashblockNumber;
use std::time::Duration;

fn partition(block_time: Duration, remaining_time: Duration, interval: Duration) -> (u64, Duration) {
    let (n, first) = partition_time_into_flashblocks(
        block_time.as_nanos(),
        remaining_time.as_nanos(),
        interval.as_nanos(),
    );
    (n, Duration::from_nanos(u64::try_from(first).unwrap()))
}

// Basic functionality

#[test]
fn perfect_division_single_interval() {
    // Remaining time equals exactly one interval.
    let block_time = Duration::from_secs(2);
    let remaining_time = Duration::from_millis(500);
    let interval = Duration::from_millis(500);

    let (num_flashblocks, first_interval) = partition(block_time, remaining_time, interval);

    assert_eq!(first_interval, interval);
    assert_eq!(num_flashblocks, 1);
}

#[test]
fn perfect_division_multiple_intervals() {
    // Remaining time is exact multiple of interval.
    let block_time = Duration::from_secs(2);
    let remaining_time = Duration::from_millis(2000);
    let interval = Duration::from_millis(250);

    let (num_flashblocks, first_interval) = partition(block_time, remaining_time, interval);

    assert_eq!(first_interval, interval);
    assert_eq!(num_flashblocks, 8); // 2000 / 250 = 8
}

#[test]
fn imperfect_division_remainder() {
    // Remaining time leaves a remainder when divided by interval.
    let block_time = Duration::from_secs(2);
    let remaining_time = Duration::from_millis(1925);
    let interval = Duration::from_millis(250);

    let (num_flashblocks, first_interval) = partition(block_time, remaining_time, interval);

    // 1925 / 250 = 7 with remainder 175
    assert_eq!(first_interval, Duration::from_millis(175));
    assert_eq!(num_flashblocks, 8);
}

#[test]
fn imperfect_division_large_remainder() {
    // Remaining time is capped by block_time (2000ms)
    let block_time = Duration::from_secs(2);
    let remaining_time = Duration::from_millis(2050);
    let interval = Duration::from_millis(300);

    let (num_flashblocks, first_interval) = partition(block_time, remaining_time, interval);

    // Capped to 2000ms: 2000 / 300 = 6 with remainder 200, so 7 flashblocks
    assert_eq!(first_interval, Duration::from_millis(200));
    assert_eq!(num_flashblocks, 7);
}

// Edge cases - small values

#[test]
fn single_flashblock_less_than_interval() {
    let block_time = Duration::from_secs(2);
    let remaining_time = Duration::from_millis(350);
    let interval = Duration::from_millis(500);

    let (num_flashblocks, first_interval) = partition(block_time, remaining_time, interval);

    assert_eq!(first_interval, Duration::from_millis(350));
    assert_eq!(num_flashblocks, 1);
}

#[test]
fn minimal_interval_with_large_remaining_time() {
    let block_time = Duration::from_secs(2);
    let remaining_time = Duration::from_millis(100);
    let interval = Duration::from_millis(1);

    let (num_flashblocks, first_interval) = partition(block_time, remaining_time, interval);

    assert_eq!(first_interval, interval);
    assert_eq!(num_flashblocks, 100); // 100ms / 1ms = 100
}

#[test]
fn remainder_is_one_millisecond() {
    let block_time = Duration::from_secs(2);
    let remaining_time = Duration::from_millis(501); // 5 * 100 + 1
    let interval = Duration::from_millis(100);

    let (num_flashblocks, first_interval) = partition(block_time, remaining_time, interval);

    assert_eq!(first_interval, Duration::from_millis(1));
    assert_eq!(num_flashblocks, 6);
}

// Edge cases - large values

#[test]
fn large_interval_with_small_remaining_time() {
    let block_time = Duration::from_secs(2);
    let remaining_time = Duration::from_millis(500);
    let interval = Duration::from_secs(10);

    let (num_flashblocks, first_interval) = partition(block_time, remaining_time, interval);

    assert_eq!(first_interval, Duration::from_millis(500));
    assert_eq!(num_flashblocks, 1);
}

#[test]
fn many_flashblocks_with_large_remaining_time() {
    let block_time = Duration::from_secs(2);
    let remaining_time = Duration::from_millis(2000);
    let interval = Duration::from_millis(200);

    let (num_flashblocks, first_interval) = partition(block_time, remaining_time, interval);

    assert_eq!(first_interval, interval);
    assert_eq!(num_flashblocks, 10); // 2000 / 200 = 10
}

// Invariant property tests

#[test]
fn first_flashblock_interval_never_exceeds_configured_interval() {
    let test_cases = vec![
        (Duration::from_secs(2), Duration::from_millis(750), Duration::from_millis(100)),
        (Duration::from_secs(2), Duration::from_millis(1500), Duration::from_millis(250)),
        (Duration::from_secs(2), Duration::from_millis(3000), Duration::from_millis(500)),
        (Duration::from_secs(2), Duration::from_millis(2500), Duration::from_millis(1000)),
    ];

    for (block_time, remaining_time, interval) in test_cases {
        let (_, first_interval) = partition(block_time, remaining_time, interval);

        assert!(
            first_interval <= interval,
            "First flashblock interval ({first_interval:?}) should not exceed interval ({interval:?})",
        );
    }
}

#[test]
fn total_time_equals_remaining_time() {
    // first_interval + (num_flashblocks - 1) * interval = remaining_time
    let block_time = Duration::from_secs(2);
    let remaining_time = Duration::from_millis(1925);
    let interval = Duration::from_millis(250);

    let (num_flashblocks, first_interval) = partition(block_time, remaining_time, interval);

    let num_remaining_intervals = num_flashblocks.saturating_sub(1);
    let total_time = first_interval + interval.saturating_mul(u32::try_from(num_remaining_intervals).unwrap());
    assert_eq!(total_time, remaining_time);
}

#[test]
fn time_sum_invariant_with_multiple_cases() {
    let test_cases = vec![
        (Duration::from_secs(2), Duration::from_millis(333), Duration::from_millis(100)),
        (Duration::from_secs(2), Duration::from_millis(1234), Duration::from_millis(200)),
        (Duration::from_secs(2), Duration::from_millis(999), Duration::from_millis(111)),
        (Duration::from_secs(2), Duration::from_millis(2000), Duration::from_millis(333)),
    ];

    for (block_time, remaining_time, interval) in test_cases {
        let (num_flashblocks, first_interval) = partition(block_time, remaining_time, interval);

        let num_remaining_intervals = num_flashblocks.saturating_sub(1);
        let total_time = first_interval + interval.saturating_mul(u32::try_from(num_remaining_intervals).unwrap());
        assert_eq!(
            total_time, remaining_time,
            "Time sum mismatch for interval={interval:?}, remaining_time={remaining_time:?}",
        );
    }
}

// Odd division cases

#[test]
fn odd_division_333_ms_interval() {
    // 1000 / 333 = 3 with remainder 1
    let block_time = Duration::from_secs(2);
    let remaining_time = Duration::from_millis(1000);
    let interval = Duration::from_millis(333);

    let (num_flashblocks, first_interval) = partition(block_time, remaining_time, interval);

    assert_eq!(first_interval, Duration::from_millis(1));
    assert_eq!(num_flashblocks, 4);
}

#[test]
fn odd_division_various_primes() {
    let block_time = Duration::from_secs(2);
    let remaining_time = Duration::from_millis(1000);
    let interval = Duration::from_millis(7);

    let (num_flashblocks, first_interval) = partition(block_time, remaining_time, interval);

    // 1000 / 7 = 142 with remainder 6
    assert_eq!(first_interval, Duration::from_millis(6));
    assert_eq!(num_flashblocks, 143);
}

// Zero remaining time -- this happens when the FCU arrives after the deadline

#[test]
fn zero_time_left() {
    let block_time = Duration::from_secs(2);
    let remaining_time = Duration::from_millis(0);
    let interval = Duration::from_millis(200);

    let (num_flashblocks, first_interval) = partition(block_time, remaining_time, interval);

    // 0 / 200 = 0 with remainder 0
    assert_eq!(first_interval, Duration::from_millis(200));
    assert_eq!(num_flashblocks, 0);
}

// The limits of each flashblock

fn ms(v: u64) -> u128 {
    Duration::from_millis(v).as_nanos()
}

#[test]
fn create_splits_gas_by_target_flashblocks() {
    let limits = FlashblockLimits::new(ms(250));
    let enclosing = Limits { deadline: Some(ms(1925)), gas_limit: 30_000_000 };
    let first = FlashblockNumber::new();

    let created = limits.create(&first, 0, 1_002, 1_000, &enclosing);
    // 8 flashblocks, the first one gets the 175ms remainder
    assert_eq!(created.deadline, Some(ms(175)));
    assert_eq!(created.gas_limit, 30_000_000 / 8);

    let third = first.advance().advance();
    let created = limits.create(&third, 0, 1_002, 1_000, &enclosing);
    assert_eq!(created.gas_limit, 30_000_000 / 8 * 3);
}

#[test]
fn create_subtracts_elapsed_building_time() {
    let limits = FlashblockLimits::new(ms(250));
    let enclosing = Limits { deadline: Some(ms(2000)), gas_limit: 1_000 };
    let created = limits.create(&FlashblockNumber::new(), ms(600), 1_002, 1_000, &enclosing);
    // 1400ms left: 5 full intervals and 150ms
    assert_eq!(created.deadline, Some(ms(150)));
    assert_eq!(created.gas_limit, 1_000 / 6);
}

#[test]
fn create_caps_remaining_time_by_block_time() {
    let limits = FlashblockLimits::new(ms(500));
    let enclosing = Limits { deadline: Some(ms(5000)), gas_limit: 900 };
    // block time 1s caps the 5s deadline: 2 flashblocks of 500ms
    let created = limits.create(&FlashblockNumber::new(), 0, 11, 10, &enclosing);
    assert_eq!(created.deadline, Some(ms(500)));
    assert_eq!(created.gas_limit, 450);
}

#[test]
fn create_without_time_left_keeps_whole_gas_limit() {
    let limits = FlashblockLimits::new(ms(250));
    let enclosing = Limits { deadline: Some(ms(100)), gas_limit: 7 };
    // elapsed beyond the deadline: no flashblocks, gas limit is not divided
    let created = limits.create(&FlashblockNumber::new().advance(), ms(200), 1_002, 1_000, &enclosing);
    assert_eq!(created.deadline, Some(ms(250)));
    assert_eq!(created.gas_limit, 14);
}

#[test]
fn create_saturates_gas_limit() {
    let limits = FlashblockLimits::new(ms(1000));
    let enclosing = Limits { deadline: Some(0), gas_limit: u64::MAX };
    let created = limits.create(&FlashblockNumber::new().advance(), 0, 1_002, 1_000, &enclosing);
    assert_eq!(created.gas_limit, u64::MAX);
}

#[test]
fn sub_millisecond_interval_kept_on_perfect_division() {
    let interval = Duration::from_micros(250_500);
    let (n, first) = partition_time_into_flashblocks(ms(2000), ms(1000), interval.as_nanos());
    // 1000ms / 250ms (whole milliseconds) = 4, and the interval is returned as it is
    assert_eq!(n, 4);
    assert_eq!(first, interval.as_nanos());
}

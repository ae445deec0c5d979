use flashblocks::limits::partition_time_into_flashblocks;
use flashblocks::stop::{BreakAfterMaxFlashblocks, ControlFlow};
use flashblocks::{FlashblockNumber, TargetFlashblocks};
use std::time::Duration;

fn ms(v: u64) -> u128 {
    Duration::from_millis(v).as_nanos()
}

#[test]
fn flashblock_number_starts_at_one() {
    let n = FlashblockNumber::new();
    assert_eq!(n.current(), 1);
    assert_eq!(n.index(), 0);
    assert_eq!(FlashblockNumber::default(), n);
}

#[test]
fn flashblock_number_advances() {
    let n = FlashblockNumber::new().advance().advance();
    assert_eq!(n.current(), 3);
    assert_eq!(n.index(), 2);
    assert_eq!(n.to_string(), "3");
    assert_eq!(FlashblockNumber::new().to_string(), "1");
}

#[test]
fn flashblock_number_displays_large_numbers() {
    let mut n = FlashblockNumber::new();
    for _ in 0..1233 {
        n = n.advance();
    }
    assert_eq!(n.to_string(), "1234");
}

#[test]
fn target_flashblocks_reads_back_what_was_set() {
    let mut t = TargetFlashblocks::new();
    assert_eq!(t.get(), 0);
    t.set(8);
    assert_eq!(t.get(), 8);
    t.set(3);
    assert_eq!(t.get(), 3);
    assert_eq!(TargetFlashblocks::default().get(), 0);
}

#[test]
fn break_after_target_flashblocks() {
    let stop = BreakAfterMaxFlashblocks::new(ms(250));
    // 1925ms deadline: 8 flashblocks
    assert_eq!(stop.target_flashblocks(ms(1925)), 8);
    let mut n = FlashblockNumber::new();
    for _ in 0..7 {
        assert_eq!(stop.step(ms(1925), &n), ControlFlow::Continue);
        n = n.advance();
    }
    assert_eq!(n.current(), 8);
    assert_eq!(stop.step(ms(1925), &n), ControlFlow::Continue);
    assert_eq!(stop.step(ms(1925), &n.advance()), ControlFlow::Break);
}

#[test]
fn break_after_perfect_division() {
    let stop = BreakAfterMaxFlashblocks::new(ms(500));
    assert_eq!(stop.target_flashblocks(ms(1500)), 3);
    assert_eq!(stop.target_flashblocks(ms(0)), 0);
    assert_eq!(stop.step(ms(0), &FlashblockNumber::new()), ControlFlow::Break);
}

#[test]
fn stop_agrees_with_partition() {
    for (deadline, interval) in [(1925, 250), (1500, 500), (1250, 750), (2000, 250), (999, 111), (7, 3)] {
        let stop = BreakAfterMaxFlashblocks::new(ms(interval));
        let (n, _) = partition_time_into_flashblocks(ms(2000), ms(deadline), ms(interval));
        assert_eq!(stop.target_flashblocks(ms(deadline)), n);
    }
}

#[test]
fn flashblock_counts_of_the_timing_scenarios() {
    // 2000ms block time; leeway 0/75/500/750ms with intervals 250/250/500/750ms
    for (leeway, interval, expected) in [(0, 250, 8), (75, 250, 8), (500, 500, 3), (750, 750, 2)] {
        let (n, _) = partition_time_into_flashblocks(ms(2000), ms(2000 - leeway), ms(interval));
        assert_eq!(n, expected);
    }
}

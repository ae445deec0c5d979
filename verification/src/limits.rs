//! Flashblocks payload limits.
//!
//! This is where the block is partitioned into flashblocks: at the beginning
//! of a payload job the time that is left is split into flashblock intervals,
//! and the gas limit of each flashblock grows with its number.
//!
//! Durations are held as whole nanoseconds, which is how a `Duration` is
//! measured without loss.

use vstd::prelude::*;
use vstd::arithmetic::div_mod::{lemma_fundamental_div_mod, lemma_div_is_ordered_by_denominator, lemma_mod_bound};
use crate::state::FlashblockNumber;

verus! {

/// Nanoseconds in one millisecond.
pub const NANOS_PER_MILLI: u128 = 1_000_000;

/// Nanoseconds in one second.
pub const NANOS_PER_SEC: u128 = 1_000_000_000;

/// Whole milliseconds of a duration given in nanoseconds (`Duration::as_millis`).
pub open spec fn millis_of(nanos: u128) -> int {
    nanos as int / NANOS_PER_MILLI as int
}

/// The shorter of two durations.
pub open spec fn min_duration(a: u128, b: u128) -> u128 {
    if a <= b { a } else { b }
}

/// The inputs on which the partition is defined: both durations fit in
/// `u64` milliseconds and the interval is at least one millisecond.
pub open spec fn partition_defined(block_time: u128, remaining_time: u128, flashblock_interval: u128) -> bool {
    &&& millis_of(min_duration(remaining_time, block_time)) <= u64::MAX
    &&& millis_of(flashblock_interval) <= u64::MAX
    &&& millis_of(flashblock_interval) >= 1
}

/// `(num_flashblocks, first_flashblock_interval)` for the time that is left.
///
/// The time left is capped by the block time and counted in whole
/// milliseconds. When it is a multiple of the interval every flashblock gets
/// the full interval; otherwise one more flashblock is added and the first one
/// gets the remainder.
pub open spec fn spec_partition(block_time: u128, remaining_time: u128, flashblock_interval: u128) -> (u64, u128) {
    let remaining_ms = millis_of(min_duration(remaining_time, block_time));
    let interval_ms = millis_of(flashblock_interval);
    let first_offset_ms = remaining_ms % interval_ms;
    if first_offset_ms == 0 {
        ((remaining_ms / interval_ms) as u64, flashblock_interval)
    } else {
        ((remaining_ms / interval_ms + 1) as u64, (first_offset_ms * NANOS_PER_MILLI as int) as u128)
    }
}

/// Partitions available time into flashblock intervals.
///
/// Divides `remaining_time` by `flashblock_interval` to determine how many
/// flashblocks can fit. If there's a remainder, adds one additional flashblock
/// with shortened duration. This ensures the sum of all flashblock durations
/// equals the total remaining time.
///
/// When `remaining_time` doesn't divide evenly by the interval, the first
/// flashblock gets a shortened interval to absorb the remainder, and subsequent
/// flashblocks use the full `flashblock_interval`.
///
/// - `block_time`: the actual time available for block production
/// - `remaining_time`: payload deadline remaining (capped by `block_time`)
/// - `flashblock_interval`: target duration for each flashblock
///
/// Returns `(num_flashblocks, first_flashblock_interval)`.
pub fn partition_time_into_flashblocks(
    block_time: u128,
    remaining_time: u128,
    flashblock_interval: u128,
) -> (r: (u64, u128))
    requires
        partition_defined(block_time, remaining_time, flashblock_interval),
    ensures
        r == spec_partition(block_time, remaining_time, flashblock_interval),
{
    let remaining_time = if remaining_time <= block_time { remaining_time } else { block_time };
    let remaining_ms: u64 = (remaining_time / NANOS_PER_MILLI) as u64;
    let flashblock_interval_ms: u64 = (flashblock_interval / NANOS_PER_MILLI) as u64;

    let first_offset_ms: u64 = remaining_ms % flashblock_interval_ms;

    if first_offset_ms == 0 {
        // Perfect division: remaining time is exact multiple of interval
        (remaining_ms / flashblock_interval_ms, flashblock_interval)
    } else {
        // Non-perfect division: add extra flashblock with shortened first interval
        proof {
            lemma_count_fits(remaining_ms as int, flashblock_interval_ms as int);
        }
        let first: u128 = first_offset_ms as u128 * NANOS_PER_MILLI;
        (remaining_ms / flashblock_interval_ms + 1, first)
    }
}

/// With a remainder the interval is at least two milliseconds, so one more
/// flashblock than the quotient still fits in `u64`.
pub(crate) proof fn lemma_count_fits(remaining_ms: int, interval_ms: int)
    requires
        0 <= remaining_ms <= u64::MAX,
        1 <= interval_ms,
        remaining_ms % interval_ms != 0,
    ensures
        remaining_ms / interval_ms + 1 <= u64::MAX,
{
    if interval_ms == 1 {
        assert(remaining_ms % 1 == 0);
    }
    lemma_div_is_ordered_by_denominator(remaining_ms, 2, interval_ms);
    assert(remaining_ms / 2 + 1 <= u64::MAX);
}

/// The flashblocks of a partition add up to the time that was left: the first
/// one, plus every other one at the full interval, is the remaining time (in
/// whole milliseconds).
pub proof fn lemma_partition_covers_remaining_time(block_time: u128, remaining_time: u128, flashblock_interval: u128)
    requires
        partition_defined(block_time, remaining_time, flashblock_interval),
        spec_partition(block_time, remaining_time, flashblock_interval).0 > 0,
    ensures
        ({
            let (n, first) = spec_partition(block_time, remaining_time, flashblock_interval);
            millis_of(first) + (n - 1) * millis_of(flashblock_interval)
                == millis_of(min_duration(remaining_time, block_time))
        }),
{
    let remaining_ms = millis_of(min_duration(remaining_time, block_time));
    let interval_ms = millis_of(flashblock_interval);
    lemma_fundamental_div_mod(remaining_ms, interval_ms);
    let q = remaining_ms / interval_ms;
    let m = remaining_ms % interval_ms;
    assert(remaining_ms == interval_ms * q + m);
    if m == 0 {
        assert((q - 1) * interval_ms + interval_ms == q * interval_ms) by (nonlinear_arith);
    } else {
        lemma_count_fits(remaining_ms, interval_ms);
        assert(q * interval_ms == interval_ms * q) by (nonlinear_arith);
        assert((m * 1_000_000) / 1_000_000 == m) by (nonlinear_arith);
    }
}

/// The first flashblock never gets more than the configured interval.
pub proof fn lemma_first_interval_within_interval(block_time: u128, remaining_time: u128, flashblock_interval: u128)
    requires
        partition_defined(block_time, remaining_time, flashblock_interval),
    ensures
        spec_partition(block_time, remaining_time, flashblock_interval).1 <= flashblock_interval,
{
    let remaining_ms = millis_of(min_duration(remaining_time, block_time));
    let interval_ms = millis_of(flashblock_interval);
    lemma_mod_bound(remaining_ms, interval_ms);
    lemma_fundamental_div_mod(flashblock_interval as int, 1_000_000);
    let m = remaining_ms % interval_ms;
    assert(m * 1_000_000 <= (interval_ms - 1) * 1_000_000) by (nonlinear_arith)
        requires m <= interval_ms - 1;
}

/// The number of flashblocks is the time left divided by the interval,
/// rounded up: every flashblock but the first is a full interval, and there
/// are no flashblocks exactly when no whole millisecond is left.
pub proof fn lemma_partition_count_rounds_up(block_time: u128, remaining_time: u128, flashblock_interval: u128)
    requires
        partition_defined(block_time, remaining_time, flashblock_interval),
    ensures
        ({
            let n = spec_partition(block_time, remaining_time, flashblock_interval).0 as int;
            let remaining_ms = millis_of(min_duration(remaining_time, block_time));
            let interval_ms = millis_of(flashblock_interval);
            &&& (n - 1) * interval_ms < remaining_ms <= n * interval_ms || (n == 0 && remaining_ms == 0)
            &&& (n == 0 <==> remaining_ms == 0)
        }),
{
    let remaining_ms = millis_of(min_duration(remaining_time, block_time));
    let interval_ms = millis_of(flashblock_interval);
    lemma_fundamental_div_mod(remaining_ms, interval_ms);
    lemma_mod_bound(remaining_ms, interval_ms);
    let q = remaining_ms / interval_ms;
    let m = remaining_ms % interval_ms;
    assert(q * interval_ms == interval_ms * q) by (nonlinear_arith);
    assert(q >= 0) by (nonlinear_arith)
        requires remaining_ms >= 0, interval_ms >= 1, q == remaining_ms / interval_ms;
    if m == 0 {
        assert((q - 1) * interval_ms == q * interval_ms - interval_ms) by (nonlinear_arith);
        if q == 0 {
            assert(remaining_ms == 0);
        } else {
            assert(remaining_ms > 0);
        }
    } else {
        lemma_count_fits(remaining_ms, interval_ms);
        assert((q + 1) * interval_ms == q * interval_ms + interval_ms) by (nonlinear_arith);
    }
}

/// The limits of a scope as far as flashblocks use them: the deadline of the
/// scope and its gas limit.
#[derive(Debug, Clone, Copy, PartialEq, Eq, Structural)]
pub struct Limits {
    pub deadline: Option<u128>,
    pub gas_limit: u64,
}

/// Specifies the limits for individual flashblocks.
///
/// This limits factory instance should be applied to the pipeline that is
/// responsible for producing individual flashblocks. This is usually the
/// pipeline that has the `PublishFlashblock` epilogue step.
///
/// At the beginning of a payload job this instance will calculate the number of
/// target flashblocks for the given job by dividing the total payload job
/// deadline by the flashblock interval.
#[derive(Debug, Clone, Copy)]
pub struct FlashblockLimits {
    /// The time interval between flashblocks within one payload job.
    interval: u128,
}

/// Time left before the deadline once `elapsed` has passed (saturating).
pub open spec fn remaining_before_deadline(deadline: u128, elapsed: u128) -> u128 {
    if elapsed <= deadline { (deadline - elapsed) as u128 } else { 0 }
}

/// The time between the parent block and this block, from their timestamps in
/// seconds (saturating).
pub open spec fn block_time_of(block_timestamp: u64, parent_timestamp: u64) -> u128 {
    if parent_timestamp <= block_timestamp {
        ((block_timestamp - parent_timestamp) * NANOS_PER_SEC) as u128
    } else {
        0
    }
}

/// The cumulative gas limit of flashblock `current` when the block is split
/// into `target` flashblocks: the per-flashblock share times the number,
/// saturating, and the whole gas limit per flashblock when there is no target.
pub open spec fn cumulative_gas_limit(gas_limit: u64, target: u64, current: u64) -> u64 {
    let share = if target == 0 { gas_limit as int } else { gas_limit as int / target as int };
    let total = share * current;
    if total <= u64::MAX { total as u64 } else { u64::MAX }
}

impl FlashblockLimits {
    /// The interval between flashblocks.
    pub closed spec fn spec_interval(self) -> u128 {
        self.interval
    }

    pub fn new(interval: u128) -> (r: Self)
        ensures
            r.spec_interval() == interval,
    {
        FlashblockLimits { interval }
    }

    /// The interval between flashblocks.
    pub fn interval(&self) -> (r: u128)
        ensures
            r == self.spec_interval(),
    {
        self.interval
    }

    /// The inputs on which `create` is defined: the enclosing scope has a
    /// deadline and the partition of its remaining time is defined.
    pub open spec fn create_defined(
        self,
        building_elapsed: u128,
        block_timestamp: u64,
        parent_timestamp: u64,
        enclosing: Limits,
    ) -> bool {
        &&& enclosing.deadline is Some
        &&& partition_defined(
            block_time_of(block_timestamp, parent_timestamp),
            remaining_before_deadline(enclosing.deadline->0, building_elapsed),
            self.spec_interval(),
        )
    }

    /// The limits of the next flashblock of a payload job: the enclosing limits
    /// with the deadline of the first flashblock interval and the cumulative gas
    /// limit of this flashblock.
    pub open spec fn spec_create(
        self,
        flashblock_number: u64,
        building_elapsed: u128,
        block_timestamp: u64,
        parent_timestamp: u64,
        enclosing: Limits,
    ) -> Limits {
        let (target, deadline) = spec_partition(
            block_time_of(block_timestamp, parent_timestamp),
            remaining_before_deadline(enclosing.deadline->0, building_elapsed),
            self.spec_interval(),
        );
        Limits {
            deadline: Some(deadline),
            gas_limit: cumulative_gas_limit(enclosing.gas_limit, target, flashblock_number),
        }
    }

    /// Creates the payload limits for the next flashblock in a new payload job.
    ///
    /// `building_elapsed` is the time since the payload started building, and
    /// the two timestamps (in seconds) give the block time.
    pub fn create(
        &self,
        flashblock_number: &FlashblockNumber,
        building_elapsed: u128,
        block_timestamp: u64,
        parent_timestamp: u64,
        enclosing: &Limits,
    ) -> (r: Limits)
        requires
            self.create_defined(building_elapsed, block_timestamp, parent_timestamp, *enclosing),
        ensures
            r == self.spec_create(
                flashblock_number.number(),
                building_elapsed,
                block_timestamp,
                parent_timestamp,
                *enclosing,
            ),
    {
        let payload_deadline = match enclosing.deadline {
            Some(d) => d,
            None => 0,
        };
        let remaining_time: u128 = payload_deadline.saturating_sub(building_elapsed);
        let block_secs: u64 = block_timestamp.saturating_sub(parent_timestamp);
        let block_time: u128 = block_secs as u128 * NANOS_PER_SEC;

        let (target_flashblocks, deadline) = partition_time_into_flashblocks(
            block_time,
            remaining_time,
            self.interval,
        );

        let share: u64 = match enclosing.gas_limit.checked_div(target_flashblocks) {
            Some(s) => s,
            None => enclosing.gas_limit,
        };
        let gas_limit: u64 = match share.checked_mul(flashblock_number.current()) {
            Some(g) => g,
            None => u64::MAX,
        };

        Limits { deadline: Some(deadline), gas_limit }
    }
}

impl Default for FlashblockLimits {
    fn default() -> (r: Self)
        ensures
            r.spec_interval() == 0,
    {
        FlashblockLimits { interval: 0 }
    }
}

/// The cumulative gas limit grows with the flashblock number, and the last
/// flashblock of the target never exceeds the gas limit of the block.
pub proof fn lemma_cumulative_gas_limit_bounded(gas_limit: u64, target: u64, current: u64, later: u64)
    requires
        current <= later,
    ensures
        cumulative_gas_limit(gas_limit, target, current) <= cumulative_gas_limit(gas_limit, target, later),
        target > 0 && current <= target ==> cumulative_gas_limit(gas_limit, target, current) <= gas_limit,
{
    let share = if target == 0 { gas_limit as int } else { gas_limit as int / target as int };
    assert(share >= 0) by (nonlinear_arith)
        requires share == (if target == 0 { gas_limit as int } else { gas_limit as int / target as int });
    assert(share * current <= share * later) by (nonlinear_arith)
        requires share >= 0, current <= later;
    if target > 0 && current <= target {
        lemma_fundamental_div_mod(gas_limit as int, target as int);
        lemma_mod_bound(gas_limit as int, target as int);
        assert(share * current <= share * target) by (nonlinear_arith)
            requires share >= 0, current <= target;
        assert(share * target == target * share) by (nonlinear_arith);
    }
}

} // verus!

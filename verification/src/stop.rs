//! Ends the flashblock loop of a payload job once its target number of
//! flashblocks has been built.

use vstd::prelude::*;
use crate::limits::{lemma_count_fits, millis_of, min_duration, spec_partition, partition_defined, NANOS_PER_MILLI};
use crate::state::FlashblockNumber;

verus! {

/// What a pipeline step tells the loop around it.
#[derive(Debug, Clone, Copy, PartialEq, Eq, Structural)]
pub enum ControlFlow {
    /// Go on with the payload.
    Continue,
    /// Leave the enclosing loop with the payload.
    Break,
}

/// The number of flashblocks that fit before the payload deadline: the
/// deadline in whole milliseconds divided by the interval, rounded up.
pub open spec fn spec_target_flashblocks(payload_deadline: u128, flashblock_interval: u128) -> u64 {
    let deadline_ms = millis_of(payload_deadline);
    let interval_ms = millis_of(flashblock_interval);
    if deadline_ms % interval_ms == 0 {
        (deadline_ms / interval_ms) as u64
    } else {
        (deadline_ms / interval_ms + 1) as u64
    }
}

/// Stops the flashblock loop when the current flashblock number exceeds the
/// number of flashblocks that fit in the payload deadline.
pub struct BreakAfterMaxFlashblocks {
    flashblock_interval: u128,
}

impl BreakAfterMaxFlashblocks {
    /// The interval between flashblocks.
    pub closed spec fn spec_interval(self) -> u128 {
        self.flashblock_interval
    }

    pub fn new(flashblock_interval: u128) -> (r: Self)
        ensures
            r.spec_interval() == flashblock_interval,
    {
        Self { flashblock_interval }
    }

    /// The interval between flashblocks.
    pub fn flashblock_interval(&self) -> (r: u128)
        ensures
            r == self.spec_interval(),
    {
        self.flashblock_interval
    }

    /// The inputs on which the step is defined: the deadline and the interval
    /// fit in `u64` milliseconds and the interval is at least a millisecond.
    pub open spec fn step_defined(self, payload_deadline: u128) -> bool {
        &&& millis_of(payload_deadline) <= u64::MAX
        &&& millis_of(self.spec_interval()) <= u64::MAX
        &&& millis_of(self.spec_interval()) >= 1
    }

    /// The number of flashblocks targeted for a payload with this deadline.
    pub fn target_flashblocks(&self, payload_deadline: u128) -> (r: u64)
        requires
            self.step_defined(payload_deadline),
        ensures
            r == spec_target_flashblocks(payload_deadline, self.spec_interval()),
    {
        let payload_deadline_ms: u64 = (payload_deadline / NANOS_PER_MILLI) as u64;
        let flashblock_interval_ms: u64 = (self.flashblock_interval / NANOS_PER_MILLI) as u64;

        let offset_ms: u64 = payload_deadline_ms % flashblock_interval_ms;

        if offset_ms == 0 {
            // Perfect division: payload time is exact multiple of interval
            payload_deadline_ms / flashblock_interval_ms
        } else {
            // Non-perfect division: add extra flashblock with shortened first
            // interval
            proof {
                lemma_count_fits(payload_deadline_ms as int, flashblock_interval_ms as int);
            }
            payload_deadline_ms / flashblock_interval_ms + 1
        }
    }

    /// Continues while the current flashblock is within the target number of
    /// flashblocks for the payload deadline, and breaks the loop after it.
    pub fn step(&self, payload_deadline: u128, flashblock_number: &FlashblockNumber) -> (r: ControlFlow)
        requires
            self.step_defined(payload_deadline),
        ensures
            r == (if flashblock_number.number() <= spec_target_flashblocks(payload_deadline, self.spec_interval()) {
                ControlFlow::Continue
            } else {
                ControlFlow::Break
            }),
    {
        let target_flashblocks = self.target_flashblocks(payload_deadline);
        if flashblock_number.current() <= target_flashblocks {
            ControlFlow::Continue
        } else {
            ControlFlow::Break
        }
    }
}

/// The stop step and the flashblock limits agree: when the payload deadline
/// is within the block time, the loop stops after exactly as many flashblocks
/// as the limits partitioned the deadline into.
pub proof fn lemma_stop_agrees_with_partition(block_time: u128, payload_deadline: u128, flashblock_interval: u128)
    requires
        payload_deadline <= block_time,
        partition_defined(block_time, payload_deadline, flashblock_interval),
    ensures
        spec_target_flashblocks(payload_deadline, flashblock_interval)
            == spec_partition(block_time, payload_deadline, flashblock_interval).0,
{
    assert(min_duration(payload_deadline, block_time) == payload_deadline);
}

} // verus!

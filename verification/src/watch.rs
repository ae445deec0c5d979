//! The flashblocks watcher: what it reports of each flashblock that a builder
//! publishes.

use vstd::prelude::*;
use crate::limits::NANOS_PER_MILLI;

verus! {

/// The arguments of the watch command (it takes none).
#[derive(Debug, Clone, Copy)]
pub struct WatchArgs {}

/// What the watcher reads of a block's base.
#[derive(Debug, Clone, Copy, PartialEq, Eq, Structural)]
pub struct ObservedBase {
    pub block_number: u64,
    pub gas_limit: u64,
}

/// What the watcher reads of a published flashblock.
#[derive(Debug, Clone, Copy, PartialEq, Eq, Structural)]
pub struct ObservedFlashblock {
    pub index: u64,
    pub base: Option<ObservedBase>,
    pub gas_used: u64,
    pub transaction_count: usize,
}

/// One report line.
#[derive(Debug, Clone, Copy, PartialEq, Eq, Structural)]
pub enum WatchLine {
    /// A flashblock without a base, reported as it is.
    NoBase { index: u64 },
    /// A flashblock of the block `block_number`.
    Flashblock {
        /// The first flashblock of a block, which gets a header line.
        starts_block: bool,
        block_number: u64,
        index: u64,
        gas_used: u64,
        gas_limit: u64,
        transaction_count: usize,
        /// Milliseconds since the previous flashblock.
        time_diff_ms: Option<u128>,
        /// Gas used since the previous flashblock.
        gas_diff: Option<u64>,
    },
}

/// A report: a new block is set apart by blank lines, then the line.
#[derive(Debug, Clone, Copy, PartialEq, Eq, Structural)]
pub struct WatchReport {
    pub separates_block: bool,
    pub line: WatchLine,
}

/// The watcher's memory of the previous flashblock with a base.
#[derive(Debug, Clone, Copy)]
pub struct WatchState {
    prev: Option<ObservedFlashblock>,
    prev_at: Option<u128>,
}

impl WatchState {
    /// The previous flashblock with a base.
    pub closed spec fn previous(self) -> Option<ObservedFlashblock> {
        self.prev
    }

    /// When the previous flashblock with a base was received.
    pub closed spec fn previous_at(self) -> Option<u128> {
        self.prev_at
    }

    pub fn new() -> (r: Self)
        ensures
            r.previous() is None,
            r.previous_at() is None,
    {
        WatchState { prev: None, prev_at: None }
    }

    /// Reports a flashblock received at `received_at` and reported at `now`
    /// (nanoseconds on one clock): flashblocks without a base are reported
    /// as they are and forgotten; for the others the time since the previous
    /// one and the gas it used on top of the previous one are reported, and
    /// it becomes the previous one.
    pub fn observe(&mut self, block: ObservedFlashblock, received_at: u128, now: u128) -> (r: WatchReport)
        ensures
            r.separates_block == (block.index == 0),
            match block.base {
                None => {
                    &&& r.line == WatchLine::NoBase { index: block.index }
                    &&& final(self).previous() == old(self).previous()
                    &&& final(self).previous_at() == old(self).previous_at()
                },
                Some(base) => {
                    &&& r.line == WatchLine::Flashblock {
                        starts_block: block.index == 0,
                        block_number: base.block_number,
                        index: block.index,
                        gas_used: block.gas_used,
                        gas_limit: base.gas_limit,
                        transaction_count: block.transaction_count,
                        time_diff_ms: match old(self).previous_at() {
                            Some(prev) => Some(((if prev <= now { (now - prev) as u128 } else { 0u128 }) / NANOS_PER_MILLI) as u128),
                            None => None,
                        },
                        gas_diff: match old(self).previous() {
                            Some(prev) => Some(if prev.gas_used <= block.gas_used { (block.gas_used - prev.gas_used) as u64 } else { 0 }),
                            None => None,
                        },
                    }
                    &&& final(self).previous() == Some(block)
                    &&& final(self).previous_at() == Some(received_at)
                },
            },
    {
        let separates_block = block.index == 0;
        let base = match block.base {
            Some(base) => base,
            None => {
                return WatchReport { separates_block, line: WatchLine::NoBase { index: block.index } };
            },
        };
        let time_diff_ms = match self.prev_at {
            Some(prev) => Some(now.saturating_sub(prev) / NANOS_PER_MILLI),
            None => None,
        };
        let gas_diff = match self.prev {
            Some(prev) => Some(block.gas_used.saturating_sub(prev.gas_used)),
            None => None,
        };
        let line = WatchLine::Flashblock {
            starts_block: block.index == 0,
            block_number: base.block_number,
            index: block.index,
            gas_used: block.gas_used,
            gas_limit: base.gas_limit,
            transaction_count: block.transaction_count,
            time_diff_ms,
            gas_diff,
        };
        self.prev = Some(block);
        self.prev_at = Some(received_at);
        WatchReport { separates_block, line }
    }
}

} // verus!

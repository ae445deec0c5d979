//! Flashblocks publishing.
//!
//! The publishing step numbers the flashblocks of a payload job, chooses
//! which checkpoints go into each flashblock, places a barrier after each one
//! that reached the subscribers, and keeps the timing information that the
//! metrics are made of. Instants are nanoseconds on one monotonic clock.

use vstd::prelude::*;

verus! {

/// `later.duration_since(earlier)`, which saturates at zero.
pub open spec fn elapsed_between(later: u128, earlier: u128) -> u128 {
    if earlier <= later { (later - earlier) as u128 } else { 0 }
}

fn duration_since(later: u128, earlier: u128) -> (r: u128)
    ensures
        r == elapsed_between(later, earlier),
{
    later.saturating_sub(earlier)
}

/// Immutable information about the payload that is being built, captured once
/// at the beginning of a payload job.
#[derive(Debug)]
pub struct ExecutionPayloadBase {
    pub parent_beacon_block_root: [u8; 32],
    pub parent_hash: [u8; 32],
    pub fee_recipient: [u8; 20],
    pub prev_randao: [u8; 32],
    pub block_number: u64,
    pub gas_limit: u64,
    pub timestamp: u64,
    pub extra_data: Vec<u8>,
    pub base_fee_per_gas: u64,
}

impl ExecutionPayloadBase {
    /// The base of a block: the parent beacon block root defaults to zero and
    /// the gas limit of the payload attributes, when they set none, is the
    /// parent's gas limit.
    pub fn from_block(
        parent_beacon_block_root: Option<[u8; 32]>,
        parent_hash: [u8; 32],
        fee_recipient: [u8; 20],
        prev_randao: [u8; 32],
        block_number: u64,
        attributes_gas_limit: Option<u64>,
        parent_gas_limit: u64,
        timestamp: u64,
        extra_data: Vec<u8>,
        base_fee_per_gas: u64,
    ) -> (r: Self)
        ensures
            r.parent_beacon_block_root@ == (match parent_beacon_block_root {
                Some(root) => root@,
                None => Seq::new(32, |i: int| 0u8),
            }),
            r.parent_hash == parent_hash,
            r.fee_recipient == fee_recipient,
            r.prev_randao == prev_randao,
            r.block_number == block_number,
            r.gas_limit == (match attributes_gas_limit {
                Some(g) => g,
                None => parent_gas_limit,
            }),
            r.timestamp == timestamp,
            r.extra_data@ == extra_data@,
            r.base_fee_per_gas == base_fee_per_gas,
    {
        let root = match parent_beacon_block_root {
            Some(root) => root,
            None => [0u8; 32],
        };
        proof {
            if parent_beacon_block_root is None {
                assert(root@ =~= Seq::new(32, |i: int| 0u8));
            }
        }
        let gas_limit = match attributes_gas_limit {
            Some(g) => g,
            None => parent_gas_limit,
        };
        ExecutionPayloadBase {
            parent_beacon_block_root: root,
            parent_hash,
            fee_recipient,
            prev_randao,
            block_number,
            gas_limit,
            timestamp,
            extra_data,
            base_fee_per_gas,
        }
    }

    /// An equal copy of this base.
    pub fn duplicate(&self) -> (r: Self)
        ensures
            r.parent_beacon_block_root == self.parent_beacon_block_root,
            r.parent_hash == self.parent_hash,
            r.fee_recipient == self.fee_recipient,
            r.prev_randao == self.prev_randao,
            r.block_number == self.block_number,
            r.gas_limit == self.gas_limit,
            r.timestamp == self.timestamp,
            r.extra_data@ == self.extra_data@,
            r.base_fee_per_gas == self.base_fee_per_gas,
    {
        let extra_data = self.extra_data.clone();
        assert(extra_data@ =~= self.extra_data@);
        ExecutionPayloadBase {
            parent_beacon_block_root: self.parent_beacon_block_root,
            parent_hash: self.parent_hash,
            fee_recipient: self.fee_recipient,
            prev_randao: self.prev_randao,
            block_number: self.block_number,
            gas_limit: self.gas_limit,
            timestamp: self.timestamp,
            extra_data,
            base_fee_per_gas: self.base_fee_per_gas,
        }
    }
}

/// The durations recorded when a flashblock is published.
#[derive(Debug, Clone, Copy, PartialEq, Eq, Structural)]
pub struct BlockTimings {
    /// Between the last flashblock of the previous job and the first one of
    /// this job (recorded on the first flashblock of a job).
    pub inter_block_interval: Option<u128>,
    /// From the start of the job to its first flashblock (recorded on the
    /// first flashblock of a job).
    pub time_to_first_block: Option<u128>,
    /// Between a flashblock and the previous one of the same job (recorded
    /// on every flashblock of a job but the first).
    pub intra_block_interval: Option<u128>,
}

/// Used to track timing information for metrics.
#[derive(Debug, Clone, Copy, PartialEq, Eq, Structural)]
pub struct Times {
    pub job_started: Option<u128>,
    pub job_ended: Option<u128>,
    pub first_block_at: Option<u128>,
    pub previous_block_at: Option<u128>,
    pub last_block_at: Option<u128>,
}

impl Times {
    /// No instant recorded yet.
    pub fn new() -> (r: Self)
        ensures
            r == Self::spec_new(),
    {
        Times {
            job_started: None,
            job_ended: None,
            first_block_at: None,
            previous_block_at: None,
            last_block_at: None,
        }
    }

    pub open spec fn spec_new() -> Self {
        Times {
            job_started: None,
            job_ended: None,
            first_block_at: None,
            previous_block_at: None,
            last_block_at: None,
        }
    }

    /// A job starts at `now`: the start is recorded, the end of the previous
    /// job is taken, and the interval between jobs is the time from that end
    /// to `now`.
    pub open spec fn spec_job_started(self, now: u128) -> (Self, Option<u128>) {
        let interval = match self.job_ended {
            Some(ended_at) => Some(elapsed_between(now, ended_at)),
            None => None,
        };
        (Times { job_started: Some(now), job_ended: None, ..self }, interval)
    }

    /// A job ends at `now`: the idle time since the last flashblock is
    /// measured, the end is recorded and the per-job instants are cleared.
    pub open spec fn spec_job_ended(self, now: u128) -> (Self, Option<u128>) {
        let idle = match self.last_block_at {
            Some(last_block_at) => Some(elapsed_between(now, last_block_at)),
            None => None,
        };
        (
            Times {
                job_ended: Some(now),
                job_started: None,
                first_block_at: None,
                previous_block_at: None,
                last_block_at: self.last_block_at,
            },
            idle,
        )
    }

    /// A flashblock is published at `now`. On the first flashblock of a job
    /// the time since the last flashblock of the previous job and the time
    /// since the start of the job are measured; on every later one, the time
    /// since the previous flashblock of the same job.
    pub open spec fn spec_published_block(self, now: u128) -> (Self, BlockTimings) {
        let is_first = self.first_block_at is None;
        let since_last = match self.last_block_at {
            Some(last) => Some(elapsed_between(now, last)),
            None => None,
        };
        let inter_block_interval = if is_first { since_last } else { None };
        let intra_block_interval = if is_first { None } else { since_last };
        let time_to_first_block = if is_first {
            match self.job_started {
                Some(started) => Some(elapsed_between(now, started)),
                None => None,
            }
        } else {
            None
        };
        (
            Times {
                first_block_at: if is_first { Some(now) } else { self.first_block_at },
                last_block_at: Some(now),
                previous_block_at: self.last_block_at,
                ..self
            },
            BlockTimings { inter_block_interval, time_to_first_block, intra_block_interval },
        )
    }

    /// Records the start of a job and returns the interval since the end of
    /// the previous job, if one ended.
    pub fn on_job_started(&mut self, now: u128) -> (inter_jobs_interval: Option<u128>)
        ensures
            (*final(self), inter_jobs_interval) == old(self).spec_job_started(now),
    {
        self.job_started = Some(now);
        let ended = self.job_ended;
        self.job_ended = None;
        match ended {
            Some(ended_at) => Some(duration_since(now, ended_at)),
            None => None,
        }
    }

    /// Records the end of a job and returns the idle time since the last
    /// published flashblock, if there was one.
    pub fn on_job_ended(&mut self, now: u128) -> (idle_tail_time: Option<u128>)
        ensures
            (*final(self), idle_tail_time) == old(self).spec_job_ended(now),
    {
        let idle = match self.last_block_at {
            Some(last_block_at) => Some(duration_since(now, last_block_at)),
            None => None,
        };

        self.job_ended = Some(now);
        self.job_started = None;
        self.first_block_at = None;
        self.previous_block_at = None;
        idle
    }

    /// Records a published flashblock and returns the durations to record.
    pub fn on_published_block(&mut self, now: u128) -> (timings: BlockTimings)
        ensures
            (*final(self), timings) == old(self).spec_published_block(now),
    {
        let last_block_at = self.last_block_at;
        let since_last = match last_block_at {
            Some(last) => Some(duration_since(now, last)),
            None => None,
        };
        let mut inter_block_interval: Option<u128> = None;
        let mut time_to_first_block: Option<u128> = None;
        let mut intra_block_interval: Option<u128> = None;

        if self.first_block_at.is_none() {
            // the first flashblock of the job
            self.first_block_at = Some(now);
            inter_block_interval = since_last;
            if let Some(started) = self.job_started {
                time_to_first_block = Some(duration_since(now, started));
            }
        } else {
            // a later flashblock of the same job
            intra_block_interval = since_last;
        }

        self.previous_block_at = last_block_at;
        self.last_block_at = Some(now);

        BlockTimings { inter_block_interval, time_to_first_block, intra_block_interval }
    }
}

/// The time from the start of a job to its first flashblock is measured on
/// the first flashblock only: a job that starts at `started` and publishes at
/// `first` and then at `second` reports `first - started` once, with no
/// interval within the job; the second flashblock reports neither that nor an
/// inter-block interval, and its interval within the job is `second - first`.
pub proof fn lemma_time_to_first_block_once(times: Times, started: u128, first: u128, second: u128)
    requires
        times.first_block_at is None,
        started <= first,
        first <= second,
    ensures
        ({
            let (t1, _) = times.spec_job_started(started);
            let (t2, first_timings) = t1.spec_published_block(first);
            let (_, second_timings) = t2.spec_published_block(second);
            &&& first_timings.time_to_first_block == Some((first - started) as u128)
            &&& first_timings.intra_block_interval is None
            &&& second_timings.time_to_first_block is None
            &&& second_timings.inter_block_interval is None
            &&& second_timings.intra_block_interval == Some((second - first) as u128)
        }),
{
}

/// Ending a job clears its first flashblock, so the next flashblock after the
/// next start is again the first one of its job: it reports the time since
/// the start and no interval within the job. The start of the next job
/// reports the time since the end of this one.
pub proof fn lemma_job_end_resets_first_block(times: Times, ended: u128, started: u128, first: u128)
    requires
        ended <= started,
        started <= first,
    ensures
        ({
            let (t1, _) = times.spec_job_ended(ended);
            let (t2, inter_jobs) = t1.spec_job_started(started);
            let (_, timings) = t2.spec_published_block(first);
            &&& inter_jobs == Some((started - ended) as u128)
            &&& timings.time_to_first_block == Some((first - started) as u128)
            &&& timings.intra_block_interval is None
        }),
{
}

/// Which checkpoints a flashblock spans.
#[derive(Debug, Clone, Copy, PartialEq, Eq, Structural)]
pub enum PayloadSpan {
    /// All checkpoints since the beginning of the block, sequencer
    /// transactions included.
    History,
    /// The checkpoints since the last barrier.
    SinceLastBarrier,
}

/// What the publishing step does with one flashblock.
#[derive(Debug)]
pub struct PublishPlan {
    /// The checkpoints whose transactions form the flashblock.
    pub span: PayloadSpan,
    /// The index of the flashblock within the payload job.
    pub index: u64,
    /// The block base captured at the start of the job.
    pub base: Option<ExecutionPayloadBase>,
    /// Whether the state root is computed (else it is zero).
    pub compute_state_root: bool,
    /// The position of the first transaction of the payload that the
    /// flashblock holds.
    pub start: usize,
    /// The position after its last transaction.
    pub end: usize,
}

/// What becomes of the payload after a publishing attempt.
#[derive(Debug, Clone, Copy, PartialEq, Eq, Structural)]
pub enum PublishOutcome {
    /// The flashblock reached the subscribers: a barrier freezes the payload
    /// so far, and these durations are recorded.
    Barrier(BlockTimings),
    /// The transport failed: the payload is returned as it is, and may be
    /// picked up by the next iteration.
    Unchanged,
}

/// What is known at the end of a payload job.
#[derive(Debug, Clone, Copy, PartialEq, Eq, Structural)]
pub struct JobSummary {
    /// The number of flashblocks of the job.
    pub flashblocks: u64,
    /// The idle time since the last published flashblock.
    pub idle_tail_time: Option<u128>,
}

/// Flashblocks pipeline step for publishing flashblocks to external
/// subscribers.
///
/// Each flashblock spans all payload checkpoints since the last barrier, and
/// after publishing a flashblock a new barrier marks all checkpoints so far as
/// immutable.
pub struct PublishFlashblock {
    /// Keeps track of the current flashblock number within the payload job.
    flashblock_number: u64,
    /// Set once at the beginning of the payload job.
    block_base: Option<ExecutionPayloadBase>,
    /// Timestamps for the stages of the publishing process.
    times: Times,
    /// Should we calculate the state root for each flashblock
    pub calculate_state_root: bool,
    /// The positions of the transactions of each flashblock planned in the
    /// current job, in index order.
    planned: Ghost<Seq<(nat, nat)>>,
    /// Whether every flashblock planned in the current job was published.
    intact: Ghost<bool>,
}

/// The copy of a base that a plan carries.
pub open spec fn same_base(a: Option<ExecutionPayloadBase>, b: Option<ExecutionPayloadBase>) -> bool {
    match (a, b) {
        (None, None) => true,
        (Some(x), Some(y)) => {
            &&& x.parent_beacon_block_root == y.parent_beacon_block_root
            &&& x.parent_hash == y.parent_hash
            &&& x.fee_recipient == y.fee_recipient
            &&& x.prev_randao == y.prev_randao
            &&& x.block_number == y.block_number
            &&& x.gas_limit == y.gas_limit
            &&& x.timestamp == y.timestamp
            &&& x.extra_data@ == y.extra_data@
            &&& x.base_fee_per_gas == y.base_fee_per_gas
        },
        _ => false,
    }
}

/// The flashblock counter after one more flashblock (it wraps as the atomic
/// counter does).
pub open spec fn next_count(count: u64) -> u64 {
    if count == u64::MAX { 0 } else { (count + 1) as u64 }
}

impl PublishFlashblock {
    /// The number of flashblocks published in the current job.
    pub closed spec fn count(self) -> u64 {
        self.flashblock_number
    }

    /// The block base of the current job.
    pub closed spec fn base(self) -> Option<ExecutionPayloadBase> {
        self.block_base
    }

    /// The timing state.
    pub closed spec fn timing(self) -> Times {
        self.times
    }

    /// Whether state roots are computed.
    pub closed spec fn state_root_enabled(self) -> bool {
        self.calculate_state_root
    }

    /// The positions of the transactions of each flashblock planned in the
    /// current job, in index order.
    pub closed spec fn ranges(self) -> Seq<(nat, nat)> {
        self.planned@
    }

    /// Whether every flashblock planned in the current job reached the
    /// subscribers.
    pub closed spec fn intact(self) -> bool {
        self.intact@
    }

    /// Between two flashblocks of a job whose flashblocks all reached the
    /// subscribers: they hold the payload's transactions one after the other
    /// up to its last barrier.
    pub open spec fn tracks(self, payload: PayloadHistory) -> bool {
        &&& payload.wf()
        &&& self.intact() ==> job_published(self.count(), payload, self.ranges())
    }

    /// Once a flashblock is planned and before its barrier: the same, with
    /// the barrier that publishing it places.
    pub open spec fn tracks_planned(self, payload: PayloadHistory) -> bool {
        &&& payload.wf()
        &&& self.intact() ==> job_published(self.count(), after_barrier(payload), self.ranges())
    }

    pub fn new(calculate_state_root: bool) -> (r: Self)
        ensures
            r.count() == 0,
            r.base() is None,
            r.timing() == Times::spec_new(),
            r.state_root_enabled() == calculate_state_root,
            r.ranges() == Seq::<(nat, nat)>::empty(),
            r.intact(),
    {
        PublishFlashblock {
            flashblock_number: 0,
            block_base: None,
            times: Times::new(),
            calculate_state_root,
            planned: Ghost(Seq::empty()),
            intact: Ghost(true),
        }
    }

    /// The span of the next flashblock: the first flashblock of a job takes all
    /// checkpoints since the beginning of the block, because the prologue
    /// places a barrier after the sequencer transactions and those are
    /// broadcast as well; later ones take the checkpoints since the last
    /// barrier.
    pub fn unpublished_payload(&self) -> (r: PayloadSpan)
        ensures
            r == span_after(self.count()),
    {
        if self.flashblock_number == 0 {
            PayloadSpan::History
        } else {
            PayloadSpan::SinceLastBarrier
        }
    }

    /// Whether the state root of this flashblock is computed.
    pub fn compute_state_root(&self) -> (r: bool)
        ensures
            r == self.state_root_enabled(),
    {
        self.calculate_state_root
    }

    /// Plans the next flashblock of the payload. A span without
    /// transactions is not published: no flashblock is planned, no index is
    /// taken and nothing changes. Otherwise the plan carries the span and the
    /// positions of its transactions, its index (the counter before it is
    /// incremented), the block base and whether the state root is computed.
    /// On a job whose flashblocks all reached the subscribers, the planned
    /// flashblock continues them.
    pub fn step(&mut self, payload: &PayloadHistory) -> (plan: Option<PublishPlan>)
        requires
            payload.wf(),
        ensures
            ({
                let range = span_range(span_after(old(self).count()), *payload);
                &&& range.0 == range.1 ==> plan is None && final(self).count() == old(self).count()
                    && final(self).ranges() == old(self).ranges()
                &&& range.0 < range.1 ==> (plan matches Some(p) && ({
                    &&& p.span == span_after(old(self).count())
                    &&& (p.start as nat, p.end as nat) == range
                    &&& p.index == old(self).count()
                    &&& same_base(p.base, old(self).base())
                    &&& p.compute_state_root == old(self).state_root_enabled()
                }))
                &&& range.0 < range.1 ==> final(self).count() == next_count(old(self).count())
                    && final(self).ranges() == old(self).ranges().push(range)
            }),
            final(self).intact() == old(self).intact(),
            final(self).base() == old(self).base(),
            final(self).timing() == old(self).timing(),
            final(self).state_root_enabled() == old(self).state_root_enabled(),
            old(self).tracks(*payload) && old(self).count() < u64::MAX ==> (match plan {
                Some(_) => final(self).tracks_planned(*payload),
                None => final(self).tracks(*payload),
            }),
    {
        let (start, end) = self.unpublished_range(payload);
        if start == end {
            return None;
        }
        proof {
            if self.tracks(*payload) && self.count() < u64::MAX && self.intact() {
                lemma_published_flashblock_extends_job(self.count(), *payload, self.ranges());
            }
        }
        let span = self.unpublished_payload();
        let index = self.flashblock_number;
        self.flashblock_number = self.flashblock_number.wrapping_add(1);
        self.planned = Ghost(self.planned@.push((start as nat, end as nat)));
        let base = match &self.block_base {
            Some(b) => Some(b.duplicate()),
            None => None,
        };
        Some(PublishPlan { span, index, base, compute_state_root: self.compute_state_root(), start, end })
    }

    /// Handles the result of sending a flashblock: a published one is timed and
    /// followed by a barrier after all transactions of the payload so far; on
    /// a transport error the payload is kept as it is.
    pub fn after_publish(&mut self, payload: &mut PayloadHistory, published: bool, now: u128) -> (r: PublishOutcome)
        requires
            old(payload).wf(),
        ensures
            published ==> ({
                let (t, timings) = old(self).timing().spec_published_block(now);
                &&& r == PublishOutcome::Barrier(timings)
                &&& final(self).timing() == t
                &&& *final(payload) == after_barrier(*old(payload))
                &&& final(self).intact() == old(self).intact()
            }),
            !published ==> r == PublishOutcome::Unchanged && final(self).timing() == old(self).timing()
                && *final(payload) == *old(payload) && !final(self).intact(),
            final(self).count() == old(self).count(),
            final(self).ranges() == old(self).ranges(),
            final(self).base() == old(self).base(),
            final(self).state_root_enabled() == old(self).state_root_enabled(),
            old(self).tracks_planned(*old(payload)) ==> final(self).tracks(*final(payload)),
    {
        if !published {
            self.intact = Ghost(false);
            return PublishOutcome::Unchanged;
        }
        payload.frozen = payload.transactions;
        let timings = self.times.on_published_block(now);
        PublishOutcome::Barrier(timings)
    }

    /// Before the payload job starts: records its start and the block base,
    /// which does not change through the job, and returns the interval since
    /// the end of the previous job.
    pub fn before_job(&mut self, now: u128, base: ExecutionPayloadBase) -> (inter_jobs_interval: Option<u128>)
        ensures
            (final(self).timing(), inter_jobs_interval) == old(self).timing().spec_job_started(now),
            final(self).base() == Some(base),
            final(self).count() == old(self).count(),
            final(self).state_root_enabled() == old(self).state_root_enabled(),
            final(self).ranges() == old(self).ranges(),
            final(self).intact() == old(self).intact(),
    {
        let interval = self.times.on_job_started(now);
        self.block_base = Some(base);
        interval
    }

    /// After a payload job completes: records its end, resets the flashblock
    /// counter and the block base, and returns the number of flashblocks of the
    /// job.
    pub fn after_job(&mut self, now: u128) -> (summary: JobSummary)
        ensures
            (final(self).timing(), summary.idle_tail_time) == old(self).timing().spec_job_ended(now),
            summary.flashblocks == old(self).count(),
            final(self).count() == 0,
            final(self).base() is None,
            final(self).state_root_enabled() == old(self).state_root_enabled(),
            final(self).ranges() == Seq::<(nat, nat)>::empty(),
            final(self).intact(),
    {
        let idle_tail_time = self.times.on_job_ended(now);
        let flashblocks = self.flashblock_number;
        self.flashblock_number = 0;
        self.block_base = None;
        self.planned = Ghost(Seq::empty());
        self.intact = Ghost(true);
        JobSummary { flashblocks, idle_tail_time }
    }
}

/// The flashblock counter after `steps` more flashblocks.
pub open spec fn count_after(count: u64, steps: nat) -> u64
    decreases steps,
{
    if steps == 0 {
        count
    } else {
        next_count(count_after(count, (steps - 1) as nat))
    }
}

/// Within a payload job the flashblocks are numbered 0, 1, 2, ...: a job
/// starts with the counter at zero (a new publisher, or the end of the
/// previous job), and after `k` flashblocks the next one has index `k`.
pub proof fn lemma_job_flashblocks_numbered_in_order(k: nat)
    requires
        k <= u64::MAX,
    ensures
        count_after(0, k) == k,
    decreases k,
{
    if k > 0 {
        lemma_job_flashblocks_numbered_in_order((k - 1) as nat);
    }
}


/// The transactions of the payload of a job as the publishing step sees
/// them: how many there are, in the order in which they were added, and how
/// many of them the last barrier froze.
#[derive(Debug, Clone, Copy, PartialEq, Eq, Structural)]
pub struct PayloadHistory {
    /// The number of transactions in the payload.
    pub transactions: usize,
    /// The number of them that come before the last barrier.
    pub frozen: usize,
}

impl PayloadHistory {
    /// A barrier never lies beyond the transactions.
    pub open spec fn wf(self) -> bool {
        self.frozen <= self.transactions
    }

    /// The payload of `transactions` transactions whose first `frozen` lie
    /// before the last barrier, or `None` when there are not that many.
    pub fn new(transactions: usize, frozen: usize) -> (r: Option<Self>)
        ensures
            r is Some <==> frozen <= transactions,
            r matches Some(h) ==> h.transactions == transactions && h.frozen == frozen,
    {
        if frozen <= transactions {
            Some(PayloadHistory { transactions, frozen })
        } else {
            None
        }
    }
}

/// The payload after a barrier: every transaction so far is frozen.
pub open spec fn after_barrier(payload: PayloadHistory) -> PayloadHistory {
    PayloadHistory { transactions: payload.transactions, frozen: payload.transactions }
}

/// The payload after more transactions were added to it.
pub open spec fn grown(payload: PayloadHistory, transactions: usize) -> PayloadHistory {
    PayloadHistory { transactions, frozen: payload.frozen }
}

/// The positions of the transactions that a span holds: all of them for the
/// history, those after the last barrier otherwise.
pub open spec fn span_range(span: PayloadSpan, payload: PayloadHistory) -> (nat, nat) {
    match span {
        PayloadSpan::History => (0, payload.transactions as nat),
        PayloadSpan::SinceLastBarrier => (payload.frozen as nat, payload.transactions as nat),
    }
}

/// The span that the publisher takes after `count` flashblocks of a job.
pub open spec fn span_after(count: u64) -> PayloadSpan {
    if count == 0 { PayloadSpan::History } else { PayloadSpan::SinceLastBarrier }
}

impl PublishFlashblock {
    /// The positions, from and to, of the transactions of the payload that the
    /// next flashblock holds.
    pub fn unpublished_range(&self, payload: &PayloadHistory) -> (r: (usize, usize))
        requires
            payload.wf(),
        ensures
            (r.0 as nat, r.1 as nat) == span_range(span_after(self.count()), *payload),
            r.0 <= r.1,
    {
        match self.unpublished_payload() {
            PayloadSpan::History => (0, payload.transactions),
            PayloadSpan::SinceLastBarrier => (payload.frozen, payload.transactions),
        }
    }
}

/// The transactions that the flashblocks with these ranges carry, one after
/// the other.
pub open spec fn published_transactions<T>(history: Seq<T>, ranges: Seq<(nat, nat)>) -> Seq<T>
    decreases ranges.len(),
{
    if ranges.len() == 0 {
        Seq::empty()
    } else {
        published_transactions(history, ranges.drop_last())
            + history.subrange(ranges.last().0 as int, ranges.last().1 as int)
    }
}

/// The ranges of the flashblocks of a job: none is empty, the first starts
/// at the beginning of the payload and each one starts where the previous
/// one ended.
pub open spec fn consecutive_ranges(ranges: Seq<(nat, nat)>) -> bool
    decreases ranges.len(),
{
    if ranges.len() == 0 {
        true
    } else {
        let last = ranges.last();
        &&& last.0 < last.1
        &&& last.0 == (if ranges.len() == 1 { 0 } else { ranges.drop_last().last().1 })
        &&& consecutive_ranges(ranges.drop_last())
    }
}

/// What holds of a job whose flashblocks all reach the subscribers, after
/// `count` of them: they have the ranges `ranges`, one after the other from
/// the beginning of the payload, and the last barrier lies right after the
/// last of them.
pub open spec fn job_published(count: u64, payload: PayloadHistory, ranges: Seq<(nat, nat)>) -> bool {
    &&& payload.wf()
    &&& ranges.len() == count
    &&& consecutive_ranges(ranges)
    &&& ranges.len() > 0 ==> ranges.last().1 == payload.frozen
}

/// A job starts with no flashblock, whatever barrier its prologue placed.
pub proof fn lemma_job_starts_unpublished(payload: PayloadHistory)
    requires
        payload.wf(),
    ensures
        job_published(0, payload, Seq::empty()),
{
}

/// Transactions added to the payload between flashblocks change nothing that
/// was published.
pub proof fn lemma_growth_keeps_published(count: u64, payload: PayloadHistory, ranges: Seq<(nat, nat)>, transactions: usize)
    requires
        job_published(count, payload, ranges),
        payload.transactions <= transactions,
    ensures
        job_published(count, grown(payload, transactions), ranges),
{
}

/// One flashblock that reaches the subscribers: when the span that the
/// publisher takes holds transactions, the flashblock carries exactly the
/// range of them right after the previous flashblock (the whole payload for
/// the first one), and the barrier placed after it keeps the job consistent.
/// An empty span publishes nothing and leaves the job as it was.
pub proof fn lemma_published_flashblock_extends_job(count: u64, payload: PayloadHistory, ranges: Seq<(nat, nat)>)
    requires
        job_published(count, payload, ranges),
        count < u64::MAX,
    ensures
        ({
            let range = span_range(span_after(count), payload);
            &&& range.0 < range.1 ==> job_published(next_count(count), after_barrier(payload), ranges.push(range))
            &&& range.0 < range.1 ==> range.0 == (if count == 0 { 0 } else { ranges.last().1 })
            &&& range.1 == payload.transactions
        }),
{
    let range = span_range(span_after(count), payload);
    if range.0 < range.1 {
        assert(ranges.push(range).drop_last() =~= ranges);
    }
}

/// The flashblocks of a job carry, one after the other, exactly the
/// transactions of the payload before its last barrier: in their order, each
/// once and none left out. With `history` the transactions of the payload,
/// the transactions of the published flashblocks concatenated are its first
/// `frozen` ones.
pub proof fn lemma_flashblocks_concatenate_to_payload<T>(
    history: Seq<T>,
    count: u64,
    payload: PayloadHistory,
    ranges: Seq<(nat, nat)>,
)
    requires
        job_published(count, payload, ranges),
        history.len() == payload.transactions,
        count > 0,
    ensures
        published_transactions(history, ranges) == history.subrange(0, payload.frozen as int),
{
    lemma_published_prefix(history, ranges);
}

proof fn lemma_published_prefix<T>(history: Seq<T>, ranges: Seq<(nat, nat)>)
    requires
        consecutive_ranges(ranges),
        ranges.len() > 0,
        ranges.last().1 <= history.len(),
    ensures
        published_transactions(history, ranges) == history.subrange(0, ranges.last().1 as int),
    decreases ranges.len(),
{
    let last = ranges.last();
    if ranges.len() > 1 {
        let init = ranges.drop_last();
        lemma_published_prefix(history, init);
        assert(history.subrange(0, last.0 as int) + history.subrange(last.0 as int, last.1 as int)
            =~= history.subrange(0, last.1 as int));
    } else {
        assert(published_transactions(history, ranges.drop_last()) == Seq::<T>::empty());
        assert(Seq::<T>::empty() + history.subrange(0, last.1 as int) =~= history.subrange(0, last.1 as int));
    }
}


/// A publisher that was just made, or whose last job ended, tracks any
/// payload: it has planned no flashblock yet.
pub proof fn lemma_fresh_publisher_tracks(p: PublishFlashblock, payload: PayloadHistory)
    requires
        payload.wf(),
        p.count() == 0,
        p.ranges() == Seq::<(nat, nat)>::empty(),
    ensures
        p.tracks(payload),
{
}

/// Transactions added to the payload between flashblocks keep it tracked.
pub proof fn lemma_publisher_tracks_growth(p: PublishFlashblock, payload: PayloadHistory, transactions: usize)
    requires
        p.tracks(payload),
        payload.transactions <= transactions,
    ensures
        p.tracks(grown(payload, transactions)),
{
}

/// The flashblocks that a publisher planned in a job whose flashblocks all
/// reached the subscribers carry, one after the other in index order,
/// exactly the transactions of the payload up to its last barrier: in their
/// order, each once and none left out. `history` is the payload's
/// transactions.
pub proof fn lemma_publisher_carries_payload<T>(p: PublishFlashblock, payload: PayloadHistory, history: Seq<T>)
    requires
        p.tracks(payload),
        p.intact(),
        p.count() > 0,
        history.len() == payload.transactions,
    ensures
        published_transactions(history, p.ranges()) == history.subrange(0, payload.frozen as int),
{
    lemma_flashblocks_concatenate_to_payload(history, p.count(), payload, p.ranges());
}


/// Within a job the interval recorded with a flashblock is the time since
/// the flashblock published just before it, whatever came earlier: from
/// any state, publishing at `previous` and then at `now` records `now -
/// previous` as the interval within the job on the second publish.
pub proof fn lemma_intra_block_interval_since_previous(times: Times, previous: u128, now: u128)
    requires
        previous <= now,
    ensures
        ({
            let (t1, _) = times.spec_published_block(previous);
            let (t2, timings) = t1.spec_published_block(now);
            &&& timings.intra_block_interval == Some((now - previous) as u128)
            &&& t2.previous_block_at == Some(previous)
            &&& t2.last_block_at == Some(now)
        }),
{
}

/// A job with flashblocks at `first`, `second` and `third` records the
/// interval since the previous flashblock on each later one: `second -
/// first`, then `third - second`.
pub proof fn lemma_three_flashblocks_of_a_job(times: Times, started: u128, first: u128, second: u128, third: u128)
    requires
        times.first_block_at is None,
        started <= first <= second <= third,
    ensures
        ({
            let (t0, _) = times.spec_job_started(started);
            let (t1, timings1) = t0.spec_published_block(first);
            let (t2, timings2) = t1.spec_published_block(second);
            let (_, timings3) = t2.spec_published_block(third);
            &&& timings1.intra_block_interval is None
            &&& timings2.intra_block_interval == Some((second - first) as u128)
            &&& timings3.intra_block_interval == Some((third - second) as u128)
            &&& timings3.time_to_first_block is None
        }),
{
}


/// The first flashblock of a job records the time since the last flashblock
/// of the previous job, and the end of that job records the time since that
/// flashblock as its idle tail.
pub proof fn lemma_inter_block_interval_across_jobs(times: Times, last: u128, ended: u128, started: u128, first: u128)
    requires
        last <= ended <= started <= first,
    ensures
        ({
            let (t1, _) = times.spec_published_block(last);
            let (t2, idle) = t1.spec_job_ended(ended);
            let (t3, _) = t2.spec_job_started(started);
            let (_, timings) = t3.spec_published_block(first);
            &&& idle == Some((ended - last) as u128)
            &&& timings.inter_block_interval == Some((first - last) as u128)
            &&& timings.time_to_first_block == Some((first - started) as u128)
            &&& timings.intra_block_interval is None
        }),
{
}

} // verus!

//! The shape of the block building pipeline.
//!
//! A block starts with the Optimism prologue and, when flashtestations are
//! enabled and the builder has a key, the flashtestations prologue. Then a
//! loop builds flashblocks until the target number is reached, within the
//! payload deadline less the leeway time; each flashblock is itself a loop
//! that appends orders by priority fee (removing reverted transactions when
//! revert protection is on) until its deadline, is signed off by the builder
//! epilogue when the builder has a key, and is published.

use vstd::prelude::*;
use crate::signer::BuilderSigner;
use crate::crypto::valid_secret_key;

verus! {

/// The optional steps and the timing of the pipeline.
#[derive(Debug, Clone, Copy, PartialEq, Eq, Structural)]
pub struct PipelinePlan {
    /// Whether the flashtestations prologue runs.
    pub flashtestations_prologue: bool,
    /// Whether reverted transactions are removed from each flashblock.
    pub remove_reverted_transactions: bool,
    /// Whether the builder epilogue signs off each flashblock.
    pub builder_epilogue: bool,
    /// Whether the state root of each flashblock is computed.
    pub calculate_state_root: bool,
    /// The interval between flashblocks (nanoseconds).
    pub flashblock_interval: u128,
    /// How much earlier than the payload deadline flashblock building ends
    /// (nanoseconds).
    pub leeway_time: u128,
}

/// The pipeline of these settings.
pub fn build_pipeline(
    revert_protection: bool,
    has_builder_signer: bool,
    flashtestations_enabled: bool,
    calculate_state_root: bool,
    flashblock_interval: u128,
    leeway_time: u128,
) -> (r: PipelinePlan)
    ensures
        r.flashtestations_prologue == (flashtestations_enabled && has_builder_signer),
        r.remove_reverted_transactions == revert_protection,
        r.builder_epilogue == has_builder_signer,
        r.calculate_state_root == calculate_state_root,
        r.flashblock_interval == flashblock_interval,
        r.leeway_time == leeway_time,
{
    PipelinePlan {
        flashtestations_prologue: flashtestations_enabled && has_builder_signer,
        remove_reverted_transactions: revert_protection,
        builder_epilogue: has_builder_signer,
        calculate_state_root,
        flashblock_interval,
        leeway_time,
    }
}

/// The builder key of the pipeline: the configured one, or else a random one
/// (the steps that sign only run with a configured key).
pub fn builder_signer_or_random(configured: Option<BuilderSigner>) -> (r: BuilderSigner)
    ensures
        match configured {
            Some(s) => r == s,
            None => valid_secret_key(r.secret()),
        },
{
    let random = BuilderSigner::random();
    match configured {
        Some(s) => s,
        None => random,
    }
}

} // verus!

//! The periodic services: the batch task, which always runs, and the
//! post-processing task, which runs where there is something to index.

use vstd::prelude::*;
use crate::action::StartupAction;
use crate::config::NodeConfig;
use crate::storage::StoreSet;

verus! {

/// Number of ledger entries after which the batch task notifies followers.
pub const BATCH_SIZE_THRESHOLD: u64 = 1000;

/// Seconds after which the batch task notifies followers at the latest.
pub const BATCH_TIME_THRESHOLD_SECS: u64 = 1;

/// Whether the post-processing task runs: with a secondary-index store, or
/// with event processing.
pub open spec fn spec_post_processing_enabled(stores: &StoreSet, config: &NodeConfig) -> bool {
    stores.index || config.enable_event_processing
}

/// Whether the post-processing task runs.
#[verifier::when_used_as_spec(spec_post_processing_enabled)]
pub fn post_processing_enabled(stores: &StoreSet, config: &NodeConfig) -> (b: bool)
    ensures
        b == spec_post_processing_enabled(stores, config),
{
    stores.index || config.enable_event_processing
}

/// The steps that spawn the periodic services, in order: the batch task with
/// its two thresholds, then the post-processing task where it runs.
pub open spec fn spec_service_plan(config: &NodeConfig) -> Seq<StartupAction> {
    let batch = seq![
        StartupAction::SpawnBatchService {
            min_batch_size: BATCH_SIZE_THRESHOLD,
            max_delay_secs: BATCH_TIME_THRESHOLD_SECS,
        },
    ];
    if spec_post_processing_enabled(&StoreSet::spec_for_config(config), config) {
        batch + seq![StartupAction::SpawnPostProcessing]
    } else {
        batch
    }
}

/// The steps that spawn the periodic services, in order.
pub fn service_plan(config: &NodeConfig) -> (plan: Vec<StartupAction>)
    ensures
        plan@ == spec_service_plan(config),
{
    let mut plan: Vec<StartupAction> = Vec::new();
    plan.push(
        StartupAction::SpawnBatchService {
            min_batch_size: BATCH_SIZE_THRESHOLD,
            max_delay_secs: BATCH_TIME_THRESHOLD_SECS,
        },
    );
    let stores = StoreSet::for_config(config);
    if post_processing_enabled(&stores, config) {
        plan.push(StartupAction::SpawnPostProcessing);
    }
    plan
}

} // verus!

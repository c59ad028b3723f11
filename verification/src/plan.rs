//! The startup plan of a configuration: every step of startup, in the order
//! in which the steps are performed, and what the plan as a whole launches.

use vstd::prelude::*;
use crate::action::StartupAction;
use crate::action::Subsystem;
use crate::action::Yield;
use crate::config::NodeConfig;
use crate::network::network_plan;
use crate::network::spec_network_plan;
use crate::network::spec_peer_listener;
use crate::network::spec_query_server;
use crate::network::spec_subscription_server;
use crate::replication::replication_plan;
use crate::replication::spec_replication_plan;
use crate::replication::spec_select_replication;
use crate::replication::ClientTimeouts;
use crate::replication::ReplicationTask;
use crate::services::service_plan;
use crate::services::spec_post_processing_enabled;
use crate::services::spec_service_plan;
use crate::services::BATCH_SIZE_THRESHOLD;
use crate::services::BATCH_TIME_THRESHOLD_SECS;
use crate::storage::spec_storage_plan;
use crate::storage::storage_plan;
use crate::storage::LedgerCapabilities;
use crate::storage::StoreKind;
use crate::storage::StoreSet;

verus! {

/// The steps before any store is opened, in order: start the metrics
/// endpoint, load the genesis data, derive the committee.
pub open spec fn spec_bootstrap_plan(config: &NodeConfig) -> Seq<StartupAction> {
    seq![
        StartupAction::StartMetricsServer { address: config.metrics_address },
        StartupAction::LoadGenesis,
        StartupAction::LoadCommittee,
    ]
}

/// The steps before any store is opened, in order.
pub fn bootstrap_plan(config: &NodeConfig) -> (plan: Vec<StartupAction>)
    ensures
        plan@ == spec_bootstrap_plan(config),
{
    let mut plan: Vec<StartupAction> = Vec::new();
    plan.push(StartupAction::StartMetricsServer { address: config.metrics_address.clone() });
    plan.push(StartupAction::LoadGenesis);
    plan.push(StartupAction::LoadCommittee);
    plan
}

/// The one step that builds the shared ledger state from the store set of
/// the configuration.
pub open spec fn spec_ledger_plan(config: &NodeConfig) -> Seq<StartupAction> {
    seq![StartupAction::BuildLedgerState { stores: StoreSet::spec_for_config(config) }]
}

/// The startup plan: bootstrap, storage, ledger state, replication, periodic
/// services, listeners.
pub open spec fn spec_startup_plan(config: &NodeConfig) -> Seq<StartupAction> {
    spec_bootstrap_plan(config) + spec_storage_plan(config) + spec_ledger_plan(config)
        + spec_replication_plan(config) + spec_service_plan(config) + spec_network_plan(config)
}

/// The startup plan of a configuration.
pub fn startup_plan(config: &NodeConfig) -> (plan: Vec<StartupAction>)
    ensures
        plan@ == spec_startup_plan(config),
{
    let mut plan = bootstrap_plan(config);
    let mut storage = storage_plan(config);
    plan.append(&mut storage);
    plan.push(StartupAction::BuildLedgerState { stores: StoreSet::for_config(config) });
    let mut replication = replication_plan(config);
    plan.append(&mut replication);
    let mut services = service_plan(config);
    plan.append(&mut services);
    let mut network = network_plan(config);
    plan.append(&mut network);
    plan
}

/// Whether some step of `plan` yields `y`.
pub open spec fn yielded(plan: Seq<StartupAction>, y: Yield) -> bool {
    exists|i: int| 0 <= i < plan.len() && #[trigger] plan[i].spec_yields() == y
}

/// Whether a node with this configuration runs the subsystem: the
/// peer-facing listener and the batch task always; the query server on a full
/// node; the subscription server on a full node with event processing and a
/// subscription address; the post-processing task on a full node or with
/// event processing; a replication task where the node should replicate.
pub open spec fn spec_runs(config: &NodeConfig, subsystem: Subsystem) -> bool {
    match subsystem {
        Subsystem::PeerListener => true,
        Subsystem::QueryListener => config.spec_is_full_node(),
        Subsystem::SubscriptionListener => config.spec_is_full_node()
            && config.enable_event_processing && config.websocket_address is Some,
        Subsystem::BatchService => true,
        Subsystem::PostProcessing => config.spec_is_full_node() || config.enable_event_processing,
        Subsystem::Replication => config.spec_should_replicate(),
    }
}

/// Whether a node with this configuration runs the subsystem.
#[verifier::when_used_as_spec(spec_runs)]
pub fn runs(config: &NodeConfig, subsystem: Subsystem) -> (b: bool)
    ensures
        b == spec_runs(config, subsystem),
{
    match subsystem {
        Subsystem::PeerListener => true,
        Subsystem::QueryListener => config.is_full_node(),
        Subsystem::SubscriptionListener => config.is_full_node() && config.enable_event_processing
            && config.websocket_address.is_some(),
        Subsystem::BatchService => true,
        Subsystem::PostProcessing => config.is_full_node() || config.enable_event_processing,
        Subsystem::Replication => config.should_replicate(),
    }
}

/// A concatenation yields what one of its two parts yields.
pub proof fn lemma_yielded_concat(a: Seq<StartupAction>, b: Seq<StartupAction>, y: Yield)
    ensures
        yielded(a + b, y) <==> yielded(a, y) || yielded(b, y),
{
    let ab = a + b;
    if yielded(a, y) {
        let i = choose|i: int| 0 <= i < a.len() && #[trigger] a[i].spec_yields() == y;
        assert(ab[i].spec_yields() == y);
    }
    if yielded(b, y) {
        let i = choose|i: int| 0 <= i < b.len() && #[trigger] b[i].spec_yields() == y;
        assert(ab[a.len() + i].spec_yields() == y);
    }
    if yielded(ab, y) {
        let i = choose|i: int| 0 <= i < ab.len() && #[trigger] ab[i].spec_yields() == y;
        if i < a.len() {
            assert(a[i].spec_yields() == y);
        } else {
            assert(b[i - a.len()].spec_yields() == y);
        }
    }
}

/// The bootstrap steps and the storage steps leave nothing for the node to
/// keep.
proof fn lemma_preparation_yields(config: &NodeConfig, y: Yield)
    ensures
        yielded(spec_bootstrap_plan(config), y) <==> y == Yield::Nothing,
        yielded(spec_storage_plan(config), y) <==> y == Yield::Nothing,
{
    let bootstrap = spec_bootstrap_plan(config);
    let storage = spec_storage_plan(config);
    assert(bootstrap[0].spec_yields() == Yield::Nothing);
    assert(storage[0].spec_yields() == Yield::Nothing);
}

/// The ledger step yields the ledger state and nothing else.
proof fn lemma_ledger_yields(config: &NodeConfig, y: Yield)
    ensures
        yielded(spec_ledger_plan(config), y) <==> y == Yield::LedgerState,
{
    assert(spec_ledger_plan(config)[0].spec_yields() == Yield::LedgerState);
}

/// The replication steps yield the handle of the replication task, exactly
/// where the node should replicate.
proof fn lemma_replication_yields(config: &NodeConfig, y: Yield)
    ensures
        yielded(spec_replication_plan(config), y) <==> config.spec_should_replicate() && (y
            == Yield::Nothing || y == Yield::Handle(Subsystem::Replication)),
{
    let plan = spec_replication_plan(config);
    if config.spec_should_replicate() {
        assert(plan[0].spec_yields() == Yield::Nothing);
        assert(plan[plan.len() - 1].spec_yields() == Yield::Handle(Subsystem::Replication));
    }
}

/// The service steps yield the handle of the batch task, and that of the
/// post-processing task where it runs.
proof fn lemma_service_yields(config: &NodeConfig, y: Yield)
    ensures
        yielded(spec_service_plan(config), y) <==> y == Yield::Handle(Subsystem::BatchService) || (
        spec_runs(config, Subsystem::PostProcessing) && y == Yield::Handle(
            Subsystem::PostProcessing,
        )),
{
    let plan = spec_service_plan(config);
    assert(plan[0].spec_yields() == Yield::Handle(Subsystem::BatchService));
    if spec_runs(config, Subsystem::PostProcessing) {
        assert(plan[1].spec_yields() == Yield::Handle(Subsystem::PostProcessing));
    }
}

/// The network steps yield the handle of the peer-facing listener, and those
/// of the query server and the subscription server where they run.
proof fn lemma_network_yields(config: &NodeConfig, y: Yield)
    ensures
        yielded(spec_network_plan(config), y) <==> y == Yield::Handle(Subsystem::PeerListener) || (
        config.consensus_config && y == Yield::Nothing) || (spec_runs(
            config,
            Subsystem::QueryListener,
        ) && y == Yield::Handle(Subsystem::QueryListener)) || (spec_runs(
            config,
            Subsystem::SubscriptionListener,
        ) && y == Yield::Handle(Subsystem::SubscriptionListener)),
{
    let plan = spec_network_plan(config);
    if config.consensus_config {
        assert(plan[0].spec_yields() == Yield::Nothing);
        assert(plan[1].spec_yields() == Yield::Handle(Subsystem::PeerListener));
    } else {
        assert(plan[0].spec_yields() == Yield::Handle(Subsystem::PeerListener));
        assert(plan[1].spec_yields() == Yield::Handle(Subsystem::QueryListener));
        if spec_runs(config, Subsystem::SubscriptionListener) {
            assert(plan[2].spec_yields() == Yield::Handle(Subsystem::SubscriptionListener));
        }
    }
}

/// The startup plan builds the ledger state, and launches exactly the
/// subsystems that the node runs.
pub proof fn lemma_plan_yields(config: &NodeConfig, y: Yield)
    ensures
        yielded(spec_startup_plan(config), y) <==> match y {
            Yield::Nothing => true,
            Yield::LedgerState => true,
            Yield::Handle(subsystem) => spec_runs(config, subsystem),
        },
{
    let bootstrap = spec_bootstrap_plan(config);
    let storage = spec_storage_plan(config);
    let ledger = spec_ledger_plan(config);
    let replication = spec_replication_plan(config);
    let services = spec_service_plan(config);
    let network = spec_network_plan(config);
    lemma_preparation_yields(config, y);
    lemma_ledger_yields(config, y);
    lemma_replication_yields(config, y);
    lemma_service_yields(config, y);
    lemma_network_yields(config, y);
    lemma_yielded_concat(bootstrap, storage, y);
    lemma_yielded_concat(bootstrap + storage, ledger, y);
    lemma_yielded_concat(bootstrap + storage + ledger, replication, y);
    lemma_yielded_concat(bootstrap + storage + ledger + replication, services, y);
    lemma_yielded_concat(
        bootstrap + storage + ledger + replication + services,
        network,
        y,
    );
}

/// Whether startup for this configuration calls for the step: the direct
/// statement of which steps the startup plan holds.
pub open spec fn spec_calls_for(config: &NodeConfig, action: StartupAction) -> bool {
    let stores = StoreSet::spec_for_config(config);
    let capabilities = LedgerCapabilities::spec_from_stores(&stores);
    let replication = spec_select_replication(config);
    match action {
        StartupAction::StartMetricsServer { address } => address == config.metrics_address,
        StartupAction::LoadGenesis => true,
        StartupAction::LoadCommittee => true,
        StartupAction::OpenStore { store } => stores.spec_contains(store) || (store
            == StoreKind::NodeSync && replication == Some(ReplicationTask::NodeSync)),
        StartupAction::InitializeEventStore => stores.event,
        StartupAction::BuildLedgerState { stores: given } => given == stores,
        StartupAction::ConnectValidators { timeouts } => replication is Some && timeouts
            == ClientTimeouts::spec_replication(),
        StartupAction::BuildReplicationController => replication is Some,
        StartupAction::SpawnGossip { degree } => replication == Some(
            ReplicationTask::Gossip { degree },
        ),
        StartupAction::SpawnNodeSync => replication == Some(ReplicationTask::NodeSync),
        StartupAction::SpawnBatchService { min_batch_size, max_delay_secs } => min_batch_size
            == BATCH_SIZE_THRESHOLD && max_delay_secs == BATCH_TIME_THRESHOLD_SECS,
        StartupAction::SpawnPostProcessing => spec_post_processing_enabled(&stores, config),
        StartupAction::BuildValidatorService => config.consensus_config,
        StartupAction::BindPeerListener { listener } => listener == spec_peer_listener(config),
        StartupAction::StartQueryServer { query } => spec_query_server(&capabilities, config)
            == Some(query),
        StartupAction::StartSubscriptionServer { subscription } => spec_subscription_server(
            &capabilities,
            config,
        ) == Some(subscription),
    }
}

/// A concatenation contains what one of its two parts contains.
pub proof fn lemma_contains_concat(
    a: Seq<StartupAction>,
    b: Seq<StartupAction>,
    action: StartupAction,
)
    ensures
        (a + b).contains(action) <==> a.contains(action) || b.contains(action),
{
    let ab = a + b;
    if a.contains(action) {
        let i = choose|i: int| 0 <= i < a.len() && a[i] == action;
        assert(ab[i] == action);
    }
    if b.contains(action) {
        let i = choose|i: int| 0 <= i < b.len() && b[i] == action;
        assert(ab[a.len() + i] == action);
    }
    if ab.contains(action) {
        let i = choose|i: int| 0 <= i < ab.len() && ab[i] == action;
        if i < a.len() {
            assert(a[i] == action);
        } else {
            assert(b[i - a.len()] == action);
        }
    }
}

/// The steps that the bootstrap part and the ledger part hold.
proof fn lemma_bootstrap_contains(config: &NodeConfig, action: StartupAction)
    ensures
        spec_bootstrap_plan(config).contains(action) <==> spec_calls_for(config, action) && (
        action is StartMetricsServer || action is LoadGenesis || action is LoadCommittee),
        spec_ledger_plan(config).contains(action) <==> spec_calls_for(config, action)
            && action is BuildLedgerState,
{
    let bootstrap = spec_bootstrap_plan(config);
    let ledger = spec_ledger_plan(config);
    assert(bootstrap[0] == StartupAction::StartMetricsServer { address: config.metrics_address });
    assert(bootstrap[1] == StartupAction::LoadGenesis);
    assert(bootstrap[2] == StartupAction::LoadCommittee);
    assert(ledger[0] == StartupAction::BuildLedgerState {
        stores: StoreSet::spec_for_config(config),
    });
}

/// The steps that the storage part holds.
proof fn lemma_storage_contains(config: &NodeConfig, action: StartupAction)
    ensures
        spec_storage_plan(config).contains(action) <==> spec_calls_for(config, action) && (
        action is InitializeEventStore || (action matches StartupAction::OpenStore { store }
            && store != StoreKind::NodeSync)),
{
    let plan = spec_storage_plan(config);
    assert(plan[0] == StartupAction::OpenStore { store: StoreKind::Primary });
    assert(plan[1] == StartupAction::OpenStore {
        store: if config.consensus_config {
            StoreKind::Checkpoint
        } else {
            StoreKind::Index
        },
    });
    assert(plan[2] == StartupAction::OpenStore { store: StoreKind::Follower });
    if config.enable_event_processing {
        assert(plan[3] == StartupAction::OpenStore { store: StoreKind::Event });
        assert(plan[4] == StartupAction::InitializeEventStore);
    }
}

/// The steps that the replication part holds.
proof fn lemma_replication_contains(config: &NodeConfig, action: StartupAction)
    ensures
        spec_replication_plan(config).contains(action) <==> spec_calls_for(config, action) && (
        action is ConnectValidators || action is BuildReplicationController
            || action is SpawnGossip || action is SpawnNodeSync || action
            == (StartupAction::OpenStore { store: StoreKind::NodeSync })),
{
    let plan = spec_replication_plan(config);
    match spec_select_replication(config) {
        None => {},
        Some(task) => {
            assert(plan[0] == StartupAction::ConnectValidators {
                timeouts: ClientTimeouts::spec_replication(),
            });
            assert(plan[1] == StartupAction::BuildReplicationController);
            match task {
                ReplicationTask::Gossip { degree } => {
                    assert(plan[2] == StartupAction::SpawnGossip { degree });
                },
                ReplicationTask::NodeSync => {
                    assert(plan[2] == StartupAction::OpenStore { store: StoreKind::NodeSync });
                    assert(plan[3] == StartupAction::SpawnNodeSync);
                },
            }
        },
    }
}

/// The steps that the service part holds.
proof fn lemma_service_contains(config: &NodeConfig, action: StartupAction)
    ensures
        spec_service_plan(config).contains(action) <==> spec_calls_for(config, action) && (
        action is SpawnBatchService || action is SpawnPostProcessing),
{
    let plan = spec_service_plan(config);
    assert(plan[0] == StartupAction::SpawnBatchService {
        min_batch_size: BATCH_SIZE_THRESHOLD,
        max_delay_secs: BATCH_TIME_THRESHOLD_SECS,
    });
    if spec_post_processing_enabled(&StoreSet::spec_for_config(config), config) {
        assert(plan[1] == StartupAction::SpawnPostProcessing);
    }
}

/// The steps that the network part holds.
proof fn lemma_network_contains(config: &NodeConfig, action: StartupAction)
    ensures
        spec_network_plan(config).contains(action) <==> spec_calls_for(config, action) && (
        action is BuildValidatorService || action is BindPeerListener
            || action is StartQueryServer || action is StartSubscriptionServer),
{
    let plan = spec_network_plan(config);
    let capabilities = LedgerCapabilities::spec_from_stores(&StoreSet::spec_for_config(config));
    let peer = StartupAction::BindPeerListener { listener: spec_peer_listener(config) };
    if config.consensus_config {
        assert(plan[0] == StartupAction::BuildValidatorService);
        assert(plan[1] == peer);
    } else {
        assert(plan[0] == peer);
        assert(plan[1] == StartupAction::StartQueryServer {
            query: spec_query_server(&capabilities, config).unwrap(),
        });
        match spec_subscription_server(&capabilities, config) {
            Some(subscription) => {
                assert(plan[2] == StartupAction::StartSubscriptionServer { subscription });
            },
            None => {},
        }
    }
}

/// The startup plan holds exactly the steps that startup for the
/// configuration calls for.
pub proof fn lemma_plan_contains(config: &NodeConfig, action: StartupAction)
    ensures
        spec_startup_plan(config).contains(action) <==> spec_calls_for(config, action),
{
    let bootstrap = spec_bootstrap_plan(config);
    let storage = spec_storage_plan(config);
    let ledger = spec_ledger_plan(config);
    let replication = spec_replication_plan(config);
    let services = spec_service_plan(config);
    let network = spec_network_plan(config);
    lemma_bootstrap_contains(config, action);
    lemma_storage_contains(config, action);
    lemma_replication_contains(config, action);
    lemma_service_contains(config, action);
    lemma_network_contains(config, action);
    lemma_contains_concat(bootstrap, storage, action);
    lemma_contains_concat(bootstrap + storage, ledger, action);
    lemma_contains_concat(bootstrap + storage + ledger, replication, action);
    lemma_contains_concat(bootstrap + storage + ledger + replication, services, action);
    lemma_contains_concat(
        bootstrap + storage + ledger + replication + services,
        network,
        action,
    );
}

/// The ledger state is built before any step that works on it, and after
/// every store of the store set has been opened.
pub proof fn lemma_ledger_state_order(config: &NodeConfig, built: int, other: int)
    requires
        0 <= built < spec_startup_plan(config).len(),
        0 <= other < spec_startup_plan(config).len(),
        spec_startup_plan(config)[built] is BuildLedgerState,
    ensures
        spec_startup_plan(config)[other].spec_uses_ledger_state() ==> built < other,
        (spec_startup_plan(config)[other] matches StartupAction::OpenStore { store }
            && StoreSet::spec_for_config(config).spec_contains(store)) ==> other < built,
        spec_startup_plan(config)[other] is InitializeEventStore ==> other < built,
{
    let before = spec_bootstrap_plan(config) + spec_storage_plan(config);
    let after = spec_replication_plan(config) + spec_service_plan(config) + spec_network_plan(
        config,
    );
    let plan = spec_startup_plan(config);
    assert(plan =~= before + spec_ledger_plan(config) + after);
    assert forall|k: int| 0 <= k < before.len() implies !(before[k] is BuildLedgerState) && !(
    #[trigger] before[k]).spec_uses_ledger_state() by {}
    assert forall|k: int| 0 <= k < after.len() implies !(#[trigger] after[k] is BuildLedgerState)
        && !(after[k] is InitializeEventStore) && (after[k] matches StartupAction::OpenStore {
        store,
    } ==> store == StoreKind::NodeSync) by {}
    if built < before.len() {
        assert(plan[built] == before[built]);
    } else if built > before.len() {
        assert(plan[built] == after[built - before.len() - 1]);
    }
    assert(built == before.len());
    if other < before.len() {
        assert(plan[other] == before[other]);
    } else if other > before.len() {
        assert(plan[other] == after[other - before.len() - 1]);
    }
}

/// The ledger state is built once, and no subsystem is launched twice: apart
/// from the steps that leave nothing behind, no two steps of the startup plan
/// yield the same.
pub proof fn lemma_yields_once(config: &NodeConfig, first: int, second: int)
    requires
        0 <= first < second < spec_startup_plan(config).len(),
        spec_startup_plan(config)[first].spec_yields() != Yield::Nothing,
    ensures
        spec_startup_plan(config)[first].spec_yields() != spec_startup_plan(
            config,
        )[second].spec_yields(),
{
    let preparation = spec_bootstrap_plan(config) + spec_storage_plan(config);
    let ledger = spec_ledger_plan(config);
    let replication = spec_replication_plan(config);
    let services = spec_service_plan(config);
    let network = spec_network_plan(config);
    let plan = spec_startup_plan(config);
    assert(plan =~= preparation + ledger + replication + services + network);
    let y = plan[first].spec_yields();
    lemma_preparation_yields(config, y);
    lemma_yielded_concat(spec_bootstrap_plan(config), spec_storage_plan(config), y);
    lemma_ledger_yields(config, y);
    lemma_replication_yields(config, y);
    lemma_service_yields(config, y);
    lemma_network_yields(config, y);
    let after_preparation = preparation.len() as int;
    let after_ledger = after_preparation + ledger.len();
    let after_replication = after_ledger + replication.len();
    let after_services = after_replication + services.len();
    if plan[second].spec_yields() == y {
        let i = first;
        let j = second;
        if i < after_preparation {
            assert(preparation[i].spec_yields() == y);
        } else if i < after_ledger {
            assert(ledger[i - after_preparation].spec_yields() == y);
        } else if i < after_replication {
            assert(replication[i - after_ledger].spec_yields() == y);
        } else if i < after_services {
            assert(services[i - after_replication].spec_yields() == y);
        } else {
            assert(network[i - after_services].spec_yields() == y);
        }
        if j < after_preparation {
            assert(preparation[j].spec_yields() == y);
        } else if j < after_ledger {
            assert(ledger[j - after_preparation].spec_yields() == y);
        } else if j < after_replication {
            assert(replication[j - after_ledger].spec_yields() == y);
        } else if j < after_services {
            assert(services[j - after_replication].spec_yields() == y);
        } else {
            assert(network[j - after_services].spec_yields() == y);
        }
    }
}

} // verus!

//! What holds of the composition of every node, by role and by feature.

use vstd::prelude::*;
use crate::action::StartupAction;
use crate::action::Subsystem;
use crate::action::Yield;
use crate::config::NodeConfig;
use crate::network::spec_build_node_server;
use crate::network::spec_peer_listener;
use crate::network::spec_query_server;
use crate::network::spec_subscription_server;
use crate::network::PeerListener;
use crate::network::QueryServer;
use crate::network::RpcModule;
use crate::network::SubscriptionServer;
use crate::plan::lemma_plan_contains;
use crate::plan::lemma_plan_yields;
use crate::plan::spec_runs;
use crate::plan::spec_startup_plan;
use crate::plan::yielded;
use crate::replication::spec_select_replication;
use crate::replication::ReplicationTask;
use crate::storage::LedgerCapabilities;
use crate::storage::StoreKind;
use crate::storage::StoreSet;

verus! {

/// The capabilities of the ledger state that startup for `config` builds.
pub open spec fn spec_capabilities(config: &NodeConfig) -> LedgerCapabilities {
    LedgerCapabilities::spec_from_stores(&StoreSet::spec_for_config(config))
}

/// No step of the startup plan starts a client-facing server.
pub open spec fn no_gateway(plan: Seq<StartupAction>) -> bool {
    forall|i: int|
        0 <= i < plan.len() ==> !((#[trigger] plan[i]) is StartQueryServer) && !(
        plan[i] is StartSubscriptionServer)
}

/// A validator opens the checkpoint store and not the secondary-index store,
/// registers the validator service on its peer-facing listener, and starts
/// neither the query server nor the subscription server, whatever the ledger
/// state offers.
pub proof fn lemma_validator_composition(config: &NodeConfig, capabilities: &LedgerCapabilities)
    requires
        config.spec_is_validator(),
    ensures
        StoreSet::spec_for_config(config).checkpoint,
        !StoreSet::spec_for_config(config).index,
        spec_startup_plan(config).contains(
            StartupAction::OpenStore { store: StoreKind::Checkpoint },
        ),
        !spec_startup_plan(config).contains(StartupAction::OpenStore { store: StoreKind::Index }),
        spec_startup_plan(config).contains(StartupAction::BuildValidatorService),
        spec_startup_plan(config).contains(
            StartupAction::BindPeerListener {
                listener: PeerListener {
                    address: config.network_address,
                    validator_service: true,
                },
            },
        ),
        spec_build_node_server(capabilities, config) == (
            None::<QueryServer>,
            None::<SubscriptionServer>,
        ),
        no_gateway(spec_startup_plan(config)),
        !spec_runs(config, Subsystem::QueryListener),
        !spec_runs(config, Subsystem::SubscriptionListener),
{
    let plan = spec_startup_plan(config);
    lemma_plan_contains(config, StartupAction::OpenStore { store: StoreKind::Checkpoint });
    lemma_plan_contains(config, StartupAction::OpenStore { store: StoreKind::Index });
    lemma_plan_contains(config, StartupAction::BuildValidatorService);
    lemma_plan_contains(
        config,
        StartupAction::BindPeerListener { listener: spec_peer_listener(config) },
    );
    assert forall|i: int| 0 <= i < plan.len() implies !((#[trigger] plan[i]) is StartQueryServer)
        && !(plan[i] is StartSubscriptionServer) by {
        lemma_plan_contains(config, plan[i]);
    }
}

/// A full node opens the secondary-index store and not the checkpoint store,
/// and always replicates by node sync, never by gossip, whatever the gossip
/// flag says.
pub proof fn lemma_full_node_composition(config: &NodeConfig)
    requires
        config.spec_is_full_node(),
    ensures
        StoreSet::spec_for_config(config).index,
        !StoreSet::spec_for_config(config).checkpoint,
        spec_startup_plan(config).contains(StartupAction::OpenStore { store: StoreKind::Index }),
        !spec_startup_plan(config).contains(
            StartupAction::OpenStore { store: StoreKind::Checkpoint },
        ),
        config.spec_should_replicate(),
        spec_select_replication(config) == Some(ReplicationTask::NodeSync),
        spec_startup_plan(config).contains(StartupAction::OpenStore { store: StoreKind::NodeSync }),
        spec_startup_plan(config).contains(StartupAction::SpawnNodeSync),
        forall|i: int|
            0 <= i < spec_startup_plan(config).len() ==> !((#[trigger] spec_startup_plan(
                config,
            )[i]) is SpawnGossip),
        spec_runs(config, Subsystem::Replication),
{
    let plan = spec_startup_plan(config);
    lemma_plan_contains(config, StartupAction::OpenStore { store: StoreKind::Index });
    lemma_plan_contains(config, StartupAction::OpenStore { store: StoreKind::Checkpoint });
    lemma_plan_contains(config, StartupAction::OpenStore { store: StoreKind::NodeSync });
    lemma_plan_contains(config, StartupAction::SpawnNodeSync);
    assert forall|i: int| 0 <= i < plan.len() implies !((#[trigger] plan[i]) is SpawnGossip) by {
        lemma_plan_contains(config, plan[i]);
    }
}

/// A validator replicates exactly when gossip is enabled, and then by
/// gossip; a full node always replicates.
pub proof fn lemma_replication_by_role(config: &NodeConfig)
    ensures
        config.spec_is_validator() ==> config.spec_should_replicate() == config.enable_gossip,
        config.spec_is_full_node() ==> config.spec_should_replicate(),
        config.spec_is_validator() != config.spec_is_full_node(),
        spec_select_replication(config) is Some <==> config.spec_should_replicate(),
        yielded(spec_startup_plan(config), Yield::Handle(Subsystem::Replication))
            <==> config.spec_should_replicate(),
        config.spec_is_validator() && config.enable_gossip ==> spec_select_replication(config)
            matches Some(ReplicationTask::Gossip { .. }),
{
    lemma_plan_yields(config, Yield::Handle(Subsystem::Replication));
}

/// The subscription server starts exactly on a full node with event
/// processing and a subscription address, and then at that address.
pub proof fn lemma_subscription_listener(config: &NodeConfig)
    ensures
        spec_subscription_server(&spec_capabilities(config), config) is Some <==> (
        config.spec_is_full_node() && config.enable_event_processing
            && config.websocket_address is Some),
        spec_subscription_server(&spec_capabilities(config), config) matches Some(server)
            ==> Some(server.address) == config.websocket_address
            && spec_startup_plan(config).contains(
            StartupAction::StartSubscriptionServer { subscription: server },
        ),
        yielded(spec_startup_plan(config), Yield::Handle(Subsystem::SubscriptionListener))
            <==> (config.spec_is_full_node() && config.enable_event_processing
            && config.websocket_address is Some),
        spec_runs(config, Subsystem::SubscriptionListener) <==> (config.spec_is_full_node()
            && config.enable_event_processing && config.websocket_address is Some),
{
    lemma_plan_yields(config, Yield::Handle(Subsystem::SubscriptionListener));
    match spec_subscription_server(&spec_capabilities(config), config) {
        Some(server) => {
            lemma_plan_contains(
                config,
                StartupAction::StartSubscriptionServer { subscription: server },
            );
        },
        None => {},
    }
}

/// On a full node the query server registers the event-read module exactly
/// when event processing is enabled, whatever subscription address is
/// configured, and the three read modules always.
pub proof fn lemma_event_read_module(config: &NodeConfig, websocket_address: Option<String>)
    requires
        config.spec_is_full_node(),
    ensures
        spec_query_server(&spec_capabilities(config), config) matches Some(server)
            && server.address == config.json_rpc_address
            && spec_startup_plan(config).contains(StartupAction::StartQueryServer { query: server })
            && (server.spec_modules().contains(RpcModule::EventRead)
            <==> config.enable_event_processing) && server.spec_modules().contains(RpcModule::Read)
            && server.spec_modules().contains(RpcModule::FullNode)
            && server.spec_modules().contains(RpcModule::Bcs) && !server.spec_modules().contains(
            RpcModule::EventStreaming,
        ),
        ({
            let other = NodeConfig { websocket_address, ..*config };
            spec_query_server(&spec_capabilities(&other), &other) == spec_query_server(
                &spec_capabilities(config),
                config,
            )
        }),
{
    let server = spec_query_server(&spec_capabilities(config), config).unwrap();
    lemma_plan_contains(config, StartupAction::StartQueryServer { query: server });
    let modules = server.spec_modules();
    assert(modules[0] == RpcModule::Read);
    assert(modules[1] == RpcModule::FullNode);
    assert(modules[2] == RpcModule::Bcs);
    if config.enable_event_processing {
        assert(modules[3] == RpcModule::EventRead);
    }
}

} // verus!

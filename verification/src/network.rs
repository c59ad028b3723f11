//! The listeners of a node: the peer-facing listener, which every node binds
//! and on which only a validator registers its service, and the client-facing
//! query gateway, which only a full node exposes.

use vstd::prelude::*;
use crate::action::StartupAction;
use crate::config::NodeConfig;
use crate::storage::LedgerCapabilities;
use crate::storage::StoreSet;

verus! {

/// A module of methods that a client-facing server can register.
#[derive(Clone, Copy, Debug, PartialEq, Eq, Structural)]
pub enum RpcModule {
    /// Basic reads.
    Read,
    /// Reads that only a full node serves.
    FullNode,
    /// Reads in binary encoding.
    Bcs,
    /// Event queries.
    EventRead,
    /// Event streaming.
    EventStreaming,
}

/// The peer-facing listener.
#[derive(Clone, Debug, PartialEq, Eq)]
pub struct PeerListener {
    /// Address the listener binds.
    pub address: String,
    /// Whether the validator service is registered on it.
    pub validator_service: bool,
}

/// The client-facing query server.
#[derive(Clone, Debug, PartialEq, Eq)]
pub struct QueryServer {
    /// Address the server is started at.
    pub address: String,
    /// Whether the event-read module is registered beside the three read
    /// modules.
    pub event_read: bool,
}

/// The client-facing streaming subscription server.
#[derive(Clone, Debug, PartialEq, Eq)]
pub struct SubscriptionServer {
    /// Address the server is started at.
    pub address: String,
}

impl QueryServer {
    /// The modules the server registers, in order of registration.
    pub open spec fn spec_modules(&self) -> Seq<RpcModule> {
        let reads = seq![RpcModule::Read, RpcModule::FullNode, RpcModule::Bcs];
        if self.event_read {
            reads.push(RpcModule::EventRead)
        } else {
            reads
        }
    }

    /// The modules the server registers, in order of registration.
    pub fn modules(&self) -> (modules: Vec<RpcModule>)
        ensures
            modules@ == self.spec_modules(),
    {
        let mut modules: Vec<RpcModule> = Vec::new();
        modules.push(RpcModule::Read);
        modules.push(RpcModule::FullNode);
        modules.push(RpcModule::Bcs);
        if self.event_read {
            modules.push(RpcModule::EventRead);
        }
        modules
    }
}

impl SubscriptionServer {
    /// The modules the server registers.
    pub open spec fn spec_modules(&self) -> Seq<RpcModule> {
        seq![RpcModule::EventStreaming]
    }

    /// The modules the server registers.
    pub fn modules(&self) -> (modules: Vec<RpcModule>)
        ensures
            modules@ == self.spec_modules(),
    {
        let mut modules: Vec<RpcModule> = Vec::new();
        modules.push(RpcModule::EventStreaming);
        modules
    }
}

/// The peer-facing listener of a configuration: bound to the network
/// address, with the validator service exactly for a validator.
pub open spec fn spec_peer_listener(config: &NodeConfig) -> PeerListener {
    PeerListener { address: config.network_address, validator_service: config.consensus_config }
}

/// The peer-facing listener of a configuration.
pub fn peer_listener(config: &NodeConfig) -> (listener: PeerListener)
    ensures
        listener == spec_peer_listener(config),
{
    PeerListener {
        address: config.network_address.clone(),
        validator_service: config.is_validator(),
    }
}

/// The query server of the gateway: none for a validator; for a full node the
/// server at the query address, with the event-read module exactly when the
/// ledger state has an event handler.
pub open spec fn spec_query_server(
    capabilities: &LedgerCapabilities,
    config: &NodeConfig,
) -> Option<QueryServer> {
    if config.consensus_config {
        None
    } else {
        Some(
            QueryServer {
                address: config.json_rpc_address,
                event_read: capabilities.event_handler,
            },
        )
    }
}

/// The subscription server of the gateway: the server at the subscription
/// address for a full node that has such an address configured and whose
/// ledger state has an event handler; none otherwise.
pub open spec fn spec_subscription_server(
    capabilities: &LedgerCapabilities,
    config: &NodeConfig,
) -> Option<SubscriptionServer> {
    if config.consensus_config || !capabilities.event_handler {
        None
    } else {
        match config.websocket_address {
            Some(address) => Some(SubscriptionServer { address }),
            None => None,
        }
    }
}

/// The client-facing query gateway: the query server and the subscription
/// server, each where it exists.
pub open spec fn spec_build_node_server(capabilities: &LedgerCapabilities, config: &NodeConfig) -> (
    Option<QueryServer>,
    Option<SubscriptionServer>,
) {
    (spec_query_server(capabilities, config), spec_subscription_server(capabilities, config))
}

/// Composes the client-facing query gateway for a ledger state with the given
/// capabilities. A validator exposes none of it.
pub fn build_node_server(capabilities: &LedgerCapabilities, config: &NodeConfig) -> (servers: (
    Option<QueryServer>,
    Option<SubscriptionServer>,
))
    ensures
        servers == spec_build_node_server(capabilities, config),
{
    if config.is_validator() {
        return (None, None);
    }
    let query = QueryServer {
        address: config.json_rpc_address.clone(),
        event_read: capabilities.event_handler,
    };
    let subscription = match &config.websocket_address {
        Some(address) => {
            if capabilities.event_handler {
                Some(SubscriptionServer { address: address.clone() })
            } else {
                None
            }
        },
        None => None,
    };
    (Some(query), subscription)
}

/// The steps that compose the listeners, in order: for a validator build its
/// service; bind and serve the peer-facing listener; start the query server
/// and the subscription server, each where it exists.
pub open spec fn spec_network_plan(config: &NodeConfig) -> Seq<StartupAction> {
    let capabilities = LedgerCapabilities::spec_from_stores(&StoreSet::spec_for_config(config));
    let service = if config.consensus_config {
        seq![StartupAction::BuildValidatorService]
    } else {
        Seq::empty()
    };
    let peer = seq![StartupAction::BindPeerListener { listener: spec_peer_listener(config) }];
    let query = match spec_query_server(&capabilities, config) {
        Some(query) => seq![StartupAction::StartQueryServer { query }],
        None => Seq::empty(),
    };
    let subscription = match spec_subscription_server(&capabilities, config) {
        Some(subscription) => seq![StartupAction::StartSubscriptionServer { subscription }],
        None => Seq::empty(),
    };
    service + peer + query + subscription
}

/// The steps that compose the listeners, in order.
pub fn network_plan(config: &NodeConfig) -> (plan: Vec<StartupAction>)
    ensures
        plan@ == spec_network_plan(config),
{
    let stores = StoreSet::for_config(config);
    let capabilities = LedgerCapabilities::from_stores(&stores);
    let mut plan: Vec<StartupAction> = Vec::new();
    if config.is_validator() {
        plan.push(StartupAction::BuildValidatorService);
    }
    plan.push(StartupAction::BindPeerListener { listener: peer_listener(config) });
    let (query, subscription) = build_node_server(&capabilities, config);
    match query {
        Some(query) => {
            plan.push(StartupAction::StartQueryServer { query });
        },
        None => {},
    }
    match subscription {
        Some(subscription) => {
            plan.push(StartupAction::StartSubscriptionServer { subscription });
        },
        None => {},
    }
    plan
}

} // verus!

//! Selection of the replication subsystem: gossip among validators, node
//! sync for full nodes, or none.

use vstd::prelude::*;
use crate::action::StartupAction;
use crate::config::NodeConfig;
use crate::storage::StoreKind;

verus! {

/// Fan-out degree of the gossip task.
pub const GOSSIP_DEGREE: usize = 4;

/// Seconds allowed for each of the connect timeout, the request timeout and
/// the keep-alive interval of a client to a validator.
pub const CLIENT_TIMEOUT_SECS: u64 = 5;

/// The replication task of a node.
#[derive(Clone, Copy, Debug, PartialEq, Eq, Structural)]
pub enum ReplicationTask {
    /// Pushes and pulls updates among `degree` peers each round.
    Gossip { degree: usize },
    /// Pulls state sequentially from the validators and records its progress
    /// in the pending-sync store.
    NodeSync,
}

/// Time bounds of a network client to a validator, in seconds.
#[derive(Clone, Copy, Debug, PartialEq, Eq, Structural)]
pub struct ClientTimeouts {
    /// Bound on establishing a connection.
    pub connect_secs: u64,
    /// Bound on one request.
    pub request_secs: u64,
    /// Interval between keep-alive probes.
    pub keepalive_secs: u64,
}

impl ClientTimeouts {
    /// The bounds used for the clients of the replication subsystem.
    pub open spec fn spec_replication() -> ClientTimeouts {
        ClientTimeouts {
            connect_secs: CLIENT_TIMEOUT_SECS,
            request_secs: CLIENT_TIMEOUT_SECS,
            keepalive_secs: CLIENT_TIMEOUT_SECS,
        }
    }

    /// The bounds used for the clients of the replication subsystem.
    #[verifier::when_used_as_spec(spec_replication)]
    pub fn replication() -> (timeouts: ClientTimeouts)
        ensures
            timeouts == ClientTimeouts::spec_replication(),
    {
        ClientTimeouts {
            connect_secs: CLIENT_TIMEOUT_SECS,
            request_secs: CLIENT_TIMEOUT_SECS,
            keepalive_secs: CLIENT_TIMEOUT_SECS,
        }
    }
}

/// The replication task of a configuration: none unless the node should
/// replicate; gossip for a validator, node sync for a full node.
pub open spec fn spec_select_replication(config: &NodeConfig) -> Option<ReplicationTask> {
    if !config.spec_should_replicate() {
        None
    } else if config.consensus_config {
        Some(ReplicationTask::Gossip { degree: GOSSIP_DEGREE })
    } else {
        Some(ReplicationTask::NodeSync)
    }
}

/// The replication task of a configuration.
#[verifier::when_used_as_spec(spec_select_replication)]
pub fn select_replication(config: &NodeConfig) -> (task: Option<ReplicationTask>)
    ensures
        task == spec_select_replication(config),
{
    if !config.should_replicate() {
        None
    } else if config.is_validator() {
        Some(ReplicationTask::Gossip { degree: GOSSIP_DEGREE })
    } else {
        Some(ReplicationTask::NodeSync)
    }
}

/// The steps that start the replication subsystem, in order: connect a client
/// to every validator, build the controller over ledger state, follower store
/// and clients, then spawn gossip, or open the pending-sync store and spawn
/// node sync. Empty where nothing replicates.
pub open spec fn spec_replication_plan(config: &NodeConfig) -> Seq<StartupAction> {
    let controller = seq![
        StartupAction::ConnectValidators { timeouts: ClientTimeouts::spec_replication() },
        StartupAction::BuildReplicationController,
    ];
    match spec_select_replication(config) {
        None => Seq::empty(),
        Some(ReplicationTask::Gossip { degree }) => controller + seq![
            StartupAction::SpawnGossip { degree },
        ],
        Some(ReplicationTask::NodeSync) => controller + seq![
            StartupAction::OpenStore { store: StoreKind::NodeSync },
            StartupAction::SpawnNodeSync,
        ],
    }
}

/// The steps that start the replication subsystem, in order.
pub fn replication_plan(config: &NodeConfig) -> (plan: Vec<StartupAction>)
    ensures
        plan@ == spec_replication_plan(config),
{
    let mut plan: Vec<StartupAction> = Vec::new();
    match select_replication(config) {
        None => {},
        Some(task) => {
            plan.push(StartupAction::ConnectValidators { timeouts: ClientTimeouts::replication() });
            plan.push(StartupAction::BuildReplicationController);
            match task {
                ReplicationTask::Gossip { degree } => {
                    plan.push(StartupAction::SpawnGossip { degree });
                },
                ReplicationTask::NodeSync => {
                    plan.push(StartupAction::OpenStore { store: StoreKind::NodeSync });
                    plan.push(StartupAction::SpawnNodeSync);
                },
            }
        },
    }
    plan
}

} // verus!

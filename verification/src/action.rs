//! The steps of startup, and the subsystems that some of them launch.

use vstd::prelude::*;
use crate::network::PeerListener;
use crate::network::QueryServer;
use crate::network::SubscriptionServer;
use crate::replication::ClientTimeouts;
use crate::storage::StoreKind;
use crate::storage::StoreSet;

verus! {

/// A long-running subsystem whose handle the node holds.
#[derive(Clone, Copy, Debug, PartialEq, Eq, Structural)]
pub enum Subsystem {
    /// The peer-facing listener.
    PeerListener,
    /// The client-facing query server.
    QueryListener,
    /// The client-facing streaming subscription server.
    SubscriptionListener,
    /// The batch task.
    BatchService,
    /// The post-processing task.
    PostProcessing,
    /// The replication task, gossip or node sync.
    Replication,
}

/// What a step leaves behind for the node to keep when it succeeds.
#[derive(Clone, Copy, Debug, PartialEq, Eq, Structural)]
pub enum Yield {
    /// Nothing that the node keeps.
    Nothing,
    /// The shared ledger state.
    LedgerState,
    /// The handle of a launched subsystem.
    Handle(Subsystem),
}

/// One step of startup. Whoever drives startup performs the steps in the
/// order given and reports how each ended.
#[derive(Clone, Debug, PartialEq, Eq)]
pub enum StartupAction {
    /// Start the metrics endpoint at `address`.
    StartMetricsServer { address: String },
    /// Load the genesis data.
    LoadGenesis,
    /// Derive the committee from the genesis data.
    LoadCommittee,
    /// Open the store under its namespace of the database root.
    OpenStore { store: StoreKind },
    /// Set up the event store before its first use.
    InitializeEventStore,
    /// Build the shared ledger state from the opened stores.
    BuildLedgerState { stores: StoreSet },
    /// Connect a network client to every validator of the genesis validator
    /// set, lazily.
    ConnectValidators { timeouts: ClientTimeouts },
    /// Build the replication controller over ledger state, follower store and
    /// clients.
    BuildReplicationController,
    /// Spawn the gossip task.
    SpawnGossip { degree: usize },
    /// Spawn the node-sync task over the pending-sync store.
    SpawnNodeSync,
    /// Spawn the batch task.
    SpawnBatchService { min_batch_size: u64, max_delay_secs: u64 },
    /// Spawn the post-processing task.
    SpawnPostProcessing,
    /// Build the validator service over the ledger state.
    BuildValidatorService,
    /// Bind the peer-facing listener and begin serving.
    BindPeerListener { listener: PeerListener },
    /// Start the client-facing query server.
    StartQueryServer { query: QueryServer },
    /// Start the client-facing streaming subscription server.
    StartSubscriptionServer { subscription: SubscriptionServer },
}

impl StartupAction {
    /// What the step leaves behind for the node to keep.
    pub open spec fn spec_yields(&self) -> Yield {
        match self {
            StartupAction::BuildLedgerState { .. } => Yield::LedgerState,
            StartupAction::SpawnGossip { .. } => Yield::Handle(Subsystem::Replication),
            StartupAction::SpawnNodeSync => Yield::Handle(Subsystem::Replication),
            StartupAction::SpawnBatchService { .. } => Yield::Handle(Subsystem::BatchService),
            StartupAction::SpawnPostProcessing => Yield::Handle(Subsystem::PostProcessing),
            StartupAction::BindPeerListener { .. } => Yield::Handle(Subsystem::PeerListener),
            StartupAction::StartQueryServer { .. } => Yield::Handle(Subsystem::QueryListener),
            StartupAction::StartSubscriptionServer { .. } => Yield::Handle(
                Subsystem::SubscriptionListener,
            ),
            _ => Yield::Nothing,
        }
    }

    /// Whether the step works on the shared ledger state, so that it can only
    /// be performed once the ledger state is built.
    pub open spec fn spec_uses_ledger_state(&self) -> bool {
        match self {
            StartupAction::BuildReplicationController => true,
            StartupAction::SpawnGossip { .. } => true,
            StartupAction::SpawnNodeSync => true,
            StartupAction::SpawnBatchService { .. } => true,
            StartupAction::SpawnPostProcessing => true,
            StartupAction::BuildValidatorService => true,
            StartupAction::BindPeerListener { listener } => listener.validator_service,
            StartupAction::StartQueryServer { .. } => true,
            StartupAction::StartSubscriptionServer { .. } => true,
            _ => false,
        }
    }

    /// What the step leaves behind for the node to keep.
    #[verifier::when_used_as_spec(spec_yields)]
    pub fn yields(&self) -> (y: Yield)
        ensures
            y == self.spec_yields(),
    {
        match self {
            StartupAction::BuildLedgerState { .. } => Yield::LedgerState,
            StartupAction::SpawnGossip { .. } => Yield::Handle(Subsystem::Replication),
            StartupAction::SpawnNodeSync => Yield::Handle(Subsystem::Replication),
            StartupAction::SpawnBatchService { .. } => Yield::Handle(Subsystem::BatchService),
            StartupAction::SpawnPostProcessing => Yield::Handle(Subsystem::PostProcessing),
            StartupAction::BindPeerListener { .. } => Yield::Handle(Subsystem::PeerListener),
            StartupAction::StartQueryServer { .. } => Yield::Handle(Subsystem::QueryListener),
            StartupAction::StartSubscriptionServer { .. } => Yield::Handle(
                Subsystem::SubscriptionListener,
            ),
            _ => Yield::Nothing,
        }
    }

    /// Whether the step works on the shared ledger state.
    #[verifier::when_used_as_spec(spec_uses_ledger_state)]
    pub fn uses_ledger_state(&self) -> (b: bool)
        ensures
            b == self.spec_uses_ledger_state(),
    {
        match self {
            StartupAction::BuildReplicationController => true,
            StartupAction::SpawnGossip { .. } => true,
            StartupAction::SpawnNodeSync => true,
            StartupAction::SpawnBatchService { .. } => true,
            StartupAction::SpawnPostProcessing => true,
            StartupAction::BuildValidatorService => true,
            StartupAction::BindPeerListener { listener } => listener.validator_service,
            StartupAction::StartQueryServer { .. } => true,
            StartupAction::StartSubscriptionServer { .. } => true,
            _ => false,
        }
    }
}

} // verus!

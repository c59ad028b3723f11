//! The on-disk stores of a node: which of them a configuration opens, under
//! which namespace of the database root, and in which order.

use std::sync::Arc;
use vstd::prelude::*;
use crate::action::StartupAction;
use crate::config::NodeConfig;

verus! {

/// One of the independent on-disk stores of a node.
#[derive(Clone, Copy, Debug, PartialEq, Eq, Structural)]
pub enum StoreKind {
    /// Primary ledger store.
    Primary,
    /// Checkpoint store; validators only.
    Checkpoint,
    /// Secondary-index store; full nodes only.
    Index,
    /// Follower-cursor store, shared by both replication modes.
    Follower,
    /// Event log; only with event processing.
    Event,
    /// Pending-sync cursor store of the node-sync task.
    NodeSync,
}

impl StoreKind {
    /// The namespace of the store under the database root.
    pub open spec fn spec_namespace(&self) -> Seq<char> {
        match self {
            StoreKind::Primary => "store"@,
            StoreKind::Checkpoint => "checkpoints"@,
            StoreKind::Index => "indexes"@,
            StoreKind::Follower => "follower_db"@,
            StoreKind::Event => "events.db"@,
            StoreKind::NodeSync => "node_sync_db"@,
        }
    }

    /// Whether opening the store takes the committee's epoch and the node's
    /// identity and key material. Only the checkpoint store does: it has to
    /// produce signed checkpoints.
    pub open spec fn spec_needs_signing_identity(&self) -> bool {
        *self == StoreKind::Checkpoint
    }

    /// Whether users of the store have to hold it behind a mutual-exclusion
    /// guard. Only the checkpoint store does: producing a checkpoint needs
    /// exclusive access while it is signed.
    pub open spec fn spec_needs_exclusive_access(&self) -> bool {
        *self == StoreKind::Checkpoint
    }

    /// The namespace of the store under the database root.
    pub fn namespace(&self) -> (name: &'static str)
        ensures
            name@ == self.spec_namespace(),
    {
        match self {
            StoreKind::Primary => "store",
            StoreKind::Checkpoint => "checkpoints",
            StoreKind::Index => "indexes",
            StoreKind::Follower => "follower_db",
            StoreKind::Event => "events.db",
            StoreKind::NodeSync => "node_sync_db",
        }
    }

    /// Whether opening the store takes the committee's epoch and the node's
    /// identity and key material.
    #[verifier::when_used_as_spec(spec_needs_signing_identity)]
    pub fn needs_signing_identity(&self) -> (b: bool)
        ensures
            b == self.spec_needs_signing_identity(),
    {
        match self {
            StoreKind::Checkpoint => true,
            _ => false,
        }
    }

    /// Whether users of the store have to hold it behind a mutual-exclusion
    /// guard.
    #[verifier::when_used_as_spec(spec_needs_exclusive_access)]
    pub fn needs_exclusive_access(&self) -> (b: bool)
        ensures
            b == self.spec_needs_exclusive_access(),
    {
        match self {
            StoreKind::Checkpoint => true,
            _ => false,
        }
    }
}

/// The mutual-exclusion lock of `parking_lot`, which is `lock_api::Mutex` over
/// `parking_lot::RawMutex`. Nothing is known of what a value of it holds.
#[verifier::external_type_specification]
#[verifier::external_body]
#[verifier::reject_recursive_types(R)]
#[verifier::reject_recursive_types(T)]
pub struct ExMutex<R, T: ?Sized>(parking_lot::lock_api::Mutex<R, T>);

/// The raw lock of `parking_lot` that its `Mutex` is built on.
#[verifier::external_type_specification]
#[verifier::external_body]
pub struct ExRawMutex(parking_lot::RawMutex);

/// An opened store, as it is handed to the components that use it.
#[verifier::reject_recursive_types(T)]
pub enum StoreAccess<T> {
    /// Shared by reference; the store synchronizes itself.
    Shared(Arc<T>),
    /// Shared by reference behind a mutual-exclusion guard.
    Exclusive(Arc<parking_lot::Mutex<T>>),
}

/// `Mutex::new` of `parking_lot`: a new lock, unlocked, that owns `value`.
/// Nothing is claimed of the result.
#[verifier::external_body]
fn guard<T>(value: T) -> parking_lot::Mutex<T> {
    parking_lot::Mutex::new(value)
}

/// Makes an opened store of the given kind ready to be shared: behind a
/// mutual-exclusion guard where the kind needs exclusive access, plainly
/// otherwise.
pub fn share_store<T>(kind: StoreKind, store: T) -> (access: StoreAccess<T>)
    ensures
        access is Exclusive <==> kind.spec_needs_exclusive_access(),
        access matches StoreAccess::Shared(shared) ==> *shared == store,
{
    if kind.needs_exclusive_access() {
        StoreAccess::Exclusive(Arc::new(guard(store)))
    } else {
        StoreAccess::Shared(Arc::new(store))
    }
}

/// The optional members of the store set that is opened before the ledger
/// state is built. The primary store and the follower-cursor store are always
/// part of it.
#[derive(Clone, Copy, Debug, PartialEq, Eq, Structural)]
pub struct StoreSet {
    /// Checkpoint store present.
    pub checkpoint: bool,
    /// Secondary-index store present.
    pub index: bool,
    /// Event store present.
    pub event: bool,
}

impl StoreSet {
    /// The checkpoint store and the secondary-index store are never both
    /// present.
    pub open spec fn well_formed(&self) -> bool {
        !(self.checkpoint && self.index)
    }

    /// The store set of a configuration: the checkpoint store for a
    /// validator, the secondary-index store for a full node, the event store
    /// with event processing.
    pub open spec fn spec_for_config(config: &NodeConfig) -> StoreSet {
        StoreSet {
            checkpoint: config.consensus_config,
            index: !config.consensus_config,
            event: config.enable_event_processing,
        }
    }

    /// Whether a store is a member of the set. The pending-sync store never
    /// is: the replication subsystem opens it for itself.
    pub open spec fn spec_contains(&self, store: StoreKind) -> bool {
        match store {
            StoreKind::Primary => true,
            StoreKind::Checkpoint => self.checkpoint,
            StoreKind::Index => self.index,
            StoreKind::Follower => true,
            StoreKind::Event => self.event,
            StoreKind::NodeSync => false,
        }
    }

    /// The store set of a configuration.
    #[verifier::when_used_as_spec(spec_for_config)]
    pub fn for_config(config: &NodeConfig) -> (stores: StoreSet)
        ensures
            stores == StoreSet::spec_for_config(config),
            stores.well_formed(),
    {
        let validator = config.is_validator();
        StoreSet { checkpoint: validator, index: !validator, event: config.enable_event_processing }
    }

    /// Whether a store is a member of the set.
    #[verifier::when_used_as_spec(spec_contains)]
    pub fn contains(&self, store: StoreKind) -> (b: bool)
        ensures
            b == self.spec_contains(store),
    {
        match store {
            StoreKind::Primary => true,
            StoreKind::Checkpoint => self.checkpoint,
            StoreKind::Index => self.index,
            StoreKind::Follower => true,
            StoreKind::Event => self.event,
            StoreKind::NodeSync => false,
        }
    }
}

/// What the ledger state offers to the components that hold a reference to
/// it, as fixed when it is built from a store set.
#[derive(Clone, Copy, Debug, PartialEq, Eq, Structural)]
pub struct LedgerCapabilities {
    /// Secondary indexes are maintained.
    pub indexing: bool,
    /// The event handler is present.
    pub event_handler: bool,
    /// Checkpoints are produced.
    pub checkpointing: bool,
}

impl LedgerCapabilities {
    /// The capabilities of a ledger state built from `stores`: indexing with
    /// the secondary-index store, the event handler with the event store,
    /// checkpointing with the checkpoint store.
    pub open spec fn spec_from_stores(stores: &StoreSet) -> LedgerCapabilities {
        LedgerCapabilities {
            indexing: stores.index,
            event_handler: stores.event,
            checkpointing: stores.checkpoint,
        }
    }

    /// The capabilities of a ledger state built from `stores`.
    #[verifier::when_used_as_spec(spec_from_stores)]
    pub fn from_stores(stores: &StoreSet) -> (capabilities: LedgerCapabilities)
        ensures
            capabilities == LedgerCapabilities::spec_from_stores(stores),
    {
        LedgerCapabilities {
            indexing: stores.index,
            event_handler: stores.event,
            checkpointing: stores.checkpoint,
        }
    }
}

/// The steps that open the store set of a configuration, in order: the
/// primary store, then the checkpoint store or the secondary-index store, then
/// the follower-cursor store, then, with event processing, the event store
/// and its initialization.
pub open spec fn spec_storage_plan(config: &NodeConfig) -> Seq<StartupAction> {
    let role_store = if config.consensus_config {
        StoreKind::Checkpoint
    } else {
        StoreKind::Index
    };
    let always = seq![
        StartupAction::OpenStore { store: StoreKind::Primary },
        StartupAction::OpenStore { store: role_store },
        StartupAction::OpenStore { store: StoreKind::Follower },
    ];
    if config.enable_event_processing {
        always + seq![
            StartupAction::OpenStore { store: StoreKind::Event },
            StartupAction::InitializeEventStore,
        ]
    } else {
        always
    }
}

/// The steps that open the store set of a configuration, in order.
pub fn storage_plan(config: &NodeConfig) -> (plan: Vec<StartupAction>)
    ensures
        plan@ == spec_storage_plan(config),
{
    let mut plan: Vec<StartupAction> = Vec::new();
    plan.push(StartupAction::OpenStore { store: StoreKind::Primary });
    if config.is_validator() {
        plan.push(StartupAction::OpenStore { store: StoreKind::Checkpoint });
    } else {
        plan.push(StartupAction::OpenStore { store: StoreKind::Index });
    }
    plan.push(StartupAction::OpenStore { store: StoreKind::Follower });
    if config.enable_event_processing {
        plan.push(StartupAction::OpenStore { store: StoreKind::Event });
        plan.push(StartupAction::InitializeEventStore);
    }
    plan
}

} // verus!

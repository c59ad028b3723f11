//! The configuration surface that the composition rules read, and the role
//! that follows from it.

use vstd::prelude::*;

verus! {

/// The two roles a node process can run in.
#[derive(Clone, Copy, Debug, PartialEq, Eq, Structural)]
pub enum Role {
    /// Takes part in consensus and produces checkpoints.
    Validator,
    /// Replicates validated state and serves client queries.
    FullNode,
}

/// Static configuration of a node, as far as composition depends on it.
///
/// Addresses are kept in their textual form and handed through unchanged to
/// whoever binds them.
#[derive(Clone, Debug, PartialEq, Eq)]
pub struct NodeConfig {
    /// Address the peer-facing listener binds.
    pub network_address: String,
    /// Address the metrics endpoint binds.
    pub metrics_address: String,
    /// Address the client-facing query server binds.
    pub json_rpc_address: String,
    /// Address the streaming subscription server binds, if one is configured.
    pub websocket_address: Option<String>,
    /// Whether a consensus configuration is present. Its presence is the sole
    /// determinant of the validator role.
    pub consensus_config: bool,
    /// Optional gossip participation; only consulted for validators.
    pub enable_gossip: bool,
    /// Whether the event log and the event-indexed interfaces are enabled.
    pub enable_event_processing: bool,
}

impl NodeConfig {
    /// The role that this configuration selects.
    pub open spec fn spec_role(&self) -> Role {
        if self.consensus_config {
            Role::Validator
        } else {
            Role::FullNode
        }
    }

    /// Whether the node is a validator.
    pub open spec fn spec_is_validator(&self) -> bool {
        self.consensus_config
    }

    /// Whether the node is a full node.
    pub open spec fn spec_is_full_node(&self) -> bool {
        !self.consensus_config
    }

    /// Whether any replication subsystem starts: always for a full node, and
    /// for a validator exactly when gossip is enabled.
    pub open spec fn spec_should_replicate(&self) -> bool {
        self.spec_is_full_node() || self.enable_gossip
    }

    /// The role that this configuration selects.
    #[verifier::when_used_as_spec(spec_role)]
    pub fn role(&self) -> (r: Role)
        ensures
            r == self.spec_role(),
    {
        if self.consensus_config {
            Role::Validator
        } else {
            Role::FullNode
        }
    }

    /// Whether the node is a validator.
    #[verifier::when_used_as_spec(spec_is_validator)]
    pub fn is_validator(&self) -> (b: bool)
        ensures
            b == self.spec_is_validator(),
    {
        self.consensus_config
    }

    /// Whether the node is a full node.
    #[verifier::when_used_as_spec(spec_is_full_node)]
    pub fn is_full_node(&self) -> (b: bool)
        ensures
            b == self.spec_is_full_node(),
    {
        !self.is_validator()
    }

    /// Whether any replication subsystem starts.
    #[verifier::when_used_as_spec(spec_should_replicate)]
    pub fn should_replicate(&self) -> (b: bool)
        ensures
            b == self.spec_should_replicate(),
    {
        self.is_full_node() || self.enable_gossip
    }
}

} // verus!

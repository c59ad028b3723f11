//! Startup composition and lifecycle rules for a ledger node.
//!
//! A node runs either as a validator or as a full node. From its static
//! configuration this crate decides which stores are opened, which long-running
//! subsystems are launched and in which order, which listeners are exposed, and
//! how the launched subsystems are held for the lifetime of the process.

pub mod action;
pub mod composition;
pub mod config;
pub mod lifecycle;
pub mod network;
pub mod node;
pub mod plan;
pub mod replication;
pub mod services;
pub mod startup;
pub mod storage;

pub use crate::network::build_node_server;
pub use crate::node::SuiNode;

//! Configuration types.  Reading and writing configuration files is I/O
//! and lives with the application shell; the types and their defaults are
//! part of the library.

use vstd::prelude::*;
use vstd::string::StringExecFns;

use crate::types::NodeId;

verus! {

/// Configuration for a database node.
#[derive(Debug, Clone)]
pub struct NodeConfig {
    pub node_id: NodeId,
    pub listen_addr: String,
    pub data_dir: String,
    pub raft_peers: Vec<String>,
    pub coordinator_addr: Option<String>,
    pub heartbeat_interval_ms: u64,
    pub election_timeout_min_ms: u64,
    pub election_timeout_max_ms: u64,
    pub snapshot_threshold: u64,
}

impl Default for NodeConfig {
    /// The development defaults: a single local node with no peers.
    fn default() -> (r: Self)
        ensures
            r.node_id.0@ == "node1"@,
            r.listen_addr@ == "127.0.0.1:9090"@,
            r.data_dir@ == "data"@,
            r.raft_peers@ == Seq::<String>::empty(),
            r.coordinator_addr is None,
            r.heartbeat_interval_ms == 100,
            r.election_timeout_min_ms == 150,
            r.election_timeout_max_ms == 300,
            r.snapshot_threshold == 1000,
    {
        NodeConfig {
            node_id: NodeId(String::from_str("node1")),
            listen_addr: String::from_str("127.0.0.1:9090"),
            data_dir: String::from_str("data"),
            raft_peers: Vec::new(),
            coordinator_addr: None,
            heartbeat_interval_ms: 100,
            election_timeout_min_ms: 150,
            election_timeout_max_ms: 300,
            snapshot_threshold: 1000,
        }
    }
}

/// Configuration for a coordinator node.
#[derive(Debug, Clone)]
pub struct CoordinatorConfig {
    pub listen_addr: String,
    pub initial_nodes: Vec<String>,
    pub metadata_refresh_interval_ms: u64,
}

impl Default for CoordinatorConfig {
    /// The development defaults: a local coordinator that knows no nodes
    /// yet.
    fn default() -> (r: Self)
        ensures
            r.listen_addr@ == "127.0.0.1:8080"@,
            r.initial_nodes@ == Seq::<String>::empty(),
            r.metadata_refresh_interval_ms == 1000,
    {
        CoordinatorConfig {
            listen_addr: String::from_str("127.0.0.1:8080"),
            initial_nodes: Vec::new(),
            metadata_refresh_interval_ms: 1000,
        }
    }
}

} // verus!

//! Error types for the distributed database system.

use vstd::prelude::*;
use vstd::string::StringExecFns;

verus! {

/// The main error type for the database system.  Each variant carries the
/// detail text of the failure it reports.
#[derive(Debug, Clone, PartialEq, Eq)]
pub enum DatabaseError {
    Io(String),
    Serialization(String),
    Deserialization(String),
    Rpc(String),
    Storage(String),
    Raft(String),
    SqlParsing(String),
    Config(String),
    NodeNotFound(String),
    Partition(String),
    Timeout(String),
    Unknown(String),
}

/// The message prefix of each error variant.
pub open spec fn error_prefix(e: DatabaseError) -> Seq<char> {
    match e {
        DatabaseError::Io(_) => "IO error: "@,
        DatabaseError::Serialization(_) => "Serialization error: "@,
        DatabaseError::Deserialization(_) => "Deserialization error: "@,
        DatabaseError::Rpc(_) => "RPC error: "@,
        DatabaseError::Storage(_) => "Storage error: "@,
        DatabaseError::Raft(_) => "Raft error: "@,
        DatabaseError::SqlParsing(_) => "SQL parsing error: "@,
        DatabaseError::Config(_) => "Configuration error: "@,
        DatabaseError::NodeNotFound(_) => "Node not found: "@,
        DatabaseError::Partition(_) => "Partition error: "@,
        DatabaseError::Timeout(_) => "Timeout error: "@,
        DatabaseError::Unknown(_) => "Unknown error: "@,
    }
}

/// The detail text an error variant carries.
pub open spec fn error_detail(e: DatabaseError) -> Seq<char> {
    match e {
        DatabaseError::Io(s) => s@,
        DatabaseError::Serialization(s) => s@,
        DatabaseError::Deserialization(s) => s@,
        DatabaseError::Rpc(s) => s@,
        DatabaseError::Storage(s) => s@,
        DatabaseError::Raft(s) => s@,
        DatabaseError::SqlParsing(s) => s@,
        DatabaseError::Config(s) => s@,
        DatabaseError::NodeNotFound(s) => s@,
        DatabaseError::Partition(s) => s@,
        DatabaseError::Timeout(s) => s@,
        DatabaseError::Unknown(s) => s@,
    }
}

impl DatabaseError {
    /// A human-readable message: the variant's prefix followed by the
    /// detail text.
    pub fn describe(&self) -> (r: String)
        ensures
            r@ == error_prefix(*self) + error_detail(*self),
    {
        match self {
            DatabaseError::Io(s) => String::from_str("IO error: ").concat(s.as_str()),
            DatabaseError::Serialization(s) => String::from_str("Serialization error: ").concat(
                s.as_str(),
            ),
            DatabaseError::Deserialization(s) => String::from_str(
                "Deserialization error: ",
            ).concat(s.as_str()),
            DatabaseError::Rpc(s) => String::from_str("RPC error: ").concat(s.as_str()),
            DatabaseError::Storage(s) => String::from_str("Storage error: ").concat(s.as_str()),
            DatabaseError::Raft(s) => String::from_str("Raft error: ").concat(s.as_str()),
            DatabaseError::SqlParsing(s) => String::from_str("SQL parsing error: ").concat(
                s.as_str(),
            ),
            DatabaseError::Config(s) => String::from_str("Configuration error: ").concat(
                s.as_str(),
            ),
            DatabaseError::NodeNotFound(s) => String::from_str("Node not found: ").concat(
                s.as_str(),
            ),
            DatabaseError::Partition(s) => String::from_str("Partition error: ").concat(
                s.as_str(),
            ),
            DatabaseError::Timeout(s) => String::from_str("Timeout error: ").concat(s.as_str()),
            DatabaseError::Unknown(s) => String::from_str("Unknown error: ").concat(s.as_str()),
        }
    }
}

impl From<String> for DatabaseError {
    /// A bare message becomes an unclassified error.
    fn from(s: String) -> (r: Self) {
        DatabaseError::Unknown(s)
    }
}

impl vstd::std_specs::convert::FromSpecImpl<String> for DatabaseError {
    open spec fn obeys_from_spec() -> bool {
        true
    }

    open spec fn from_spec(s: String) -> Self {
        DatabaseError::Unknown(s)
    }
}

} // verus!

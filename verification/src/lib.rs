//! A small distributed-database core: a verified SQL-subset parser
//! together with the cluster bookkeeping that surrounds it.
//!
//! The parser turns a query text into a typed abstract syntax tree for
//! one of five statement forms, or a structured error; its result is
//! specified exactly by the grammar in [`grammar`].  The coordinator
//! tracks cluster nodes and routes parsed statements; network transport,
//! storage and replication are external collaborators and are not part
//! of this crate's logic.

pub mod ast;
pub mod config;
pub mod coordinator;
pub mod error;
pub mod grammar;
pub mod parser;
pub mod types;
pub mod util;

pub use ast::ColumnDef;
pub use ast::ComparisonOp;
pub use ast::Condition;
pub use ast::DataType;
pub use ast::ParseError;
pub use ast::SqlStatement;
pub use ast::SqlValue;
pub use ast::WhereClause;
pub use config::CoordinatorConfig;
pub use config::NodeConfig;
pub use coordinator::Coordinator;
pub use error::DatabaseError;
pub use parser::execute_sql;
pub use parser::parse_sql;
pub use types::KeyRange;
pub use types::LogEntry;
pub use types::NodeId;
pub use types::PartitionInfo;

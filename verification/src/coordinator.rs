//! The coordinator: it parses incoming queries, routes them to the
//! statement handlers, and keeps track of the cluster's nodes and their
//! statuses.
//!
//! The node table is a private association list with unique keys; its
//! mathematical view is the map from node identifier to status, and every
//! operation is specified against that map.

use vstd::prelude::*;

use std::collections::HashMap;

use crate::ast::ColumnDef;
use crate::ast::SqlStatement;
use crate::ast::SqlValue;
use crate::ast::WhereClause;
use crate::error::DatabaseError;
use crate::grammar::sp_statement;
use crate::parser::eq_str;
use crate::parser::parse_sql;

verus! {

/// Status of a node as the coordinator tracks it.
#[derive(Debug, Clone, Copy, PartialEq, Eq, Structural)]
pub enum NodeStatus {
    Active,
    Inactive,
    Failed,
}

/// The map denoted by an association list of node entries.
pub open spec fn nodes_map(entries: Seq<(String, NodeStatus)>) -> Map<Seq<char>, NodeStatus>
    decreases entries.len(),
{
    if entries.len() == 0 {
        Map::empty()
    } else {
        nodes_map(entries.drop_last()).insert(entries.last().0@, entries.last().1)
    }
}

/// No node identifier occurs twice in the list.
pub open spec fn node_keys_unique(entries: Seq<(String, NodeStatus)>) -> bool {
    forall|p: int, q: int| 0 <= p < q < entries.len() ==> entries[p].0@ != entries[q].0@
}

/// A key that no entry carries is not in the denoted map.
proof fn lemma_nodes_map_absent(entries: Seq<(String, NodeStatus)>, key: Seq<char>)
    requires
        forall|t: int| 0 <= t < entries.len() ==> entries[t].0@ != key,
    ensures
        !nodes_map(entries).contains_key(key),
    decreases entries.len(),
{
    if entries.len() > 0 {
        lemma_nodes_map_absent(entries.drop_last(), key);
    }
}

/// With unique keys, the entry holding a key gives its value in the
/// denoted map.
proof fn lemma_nodes_map_found(entries: Seq<(String, NodeStatus)>, idx: int, key: Seq<char>)
    requires
        node_keys_unique(entries),
        0 <= idx < entries.len(),
        entries[idx].0@ == key,
    ensures
        nodes_map(entries).contains_key(key),
        nodes_map(entries)[key] == entries[idx].1,
    decreases entries.len(),
{
    if idx < entries.len() - 1 {
        lemma_nodes_map_found(entries.drop_last(), idx, key);
    }
}

/// Replacing the entry that holds a key denotes inserting over that key.
proof fn lemma_nodes_map_update(
    entries: Seq<(String, NodeStatus)>,
    idx: int,
    nv: (String, NodeStatus),
)
    requires
        node_keys_unique(entries),
        0 <= idx < entries.len(),
        nv.0@ == entries[idx].0@,
    ensures
        nodes_map(entries.update(idx, nv)) == nodes_map(entries).insert(nv.0@, nv.1),
    decreases entries.len(),
{
    let e2 = entries.update(idx, nv);
    if idx == entries.len() - 1 {
        assert(e2.drop_last() =~= entries.drop_last());
        assert(nodes_map(e2) =~= nodes_map(entries).insert(nv.0@, nv.1));
    } else {
        lemma_nodes_map_update(entries.drop_last(), idx, nv);
        assert(e2.drop_last() =~= entries.drop_last().update(idx, nv));
        assert(e2.last() == entries.last());
        assert(nodes_map(e2) =~= nodes_map(entries).insert(nv.0@, nv.1));
    }
}

/// Removing the entry that holds a key denotes removing that key.
proof fn lemma_nodes_map_remove(entries: Seq<(String, NodeStatus)>, idx: int)
    requires
        node_keys_unique(entries),
        0 <= idx < entries.len(),
    ensures
        nodes_map(entries.remove(idx)) == nodes_map(entries).remove(entries[idx].0@),
    decreases entries.len(),
{
    let key = entries[idx].0@;
    let e2 = entries.remove(idx);
    if idx == entries.len() - 1 {
        assert(e2 =~= entries.drop_last());
        lemma_nodes_map_absent(entries.drop_last(), key);
        assert(nodes_map(e2) =~= nodes_map(entries).remove(key));
    } else {
        lemma_nodes_map_remove(entries.drop_last(), idx);
        assert(e2.drop_last() =~= entries.drop_last().remove(idx));
        assert(e2.last() == entries.last());
        assert(nodes_map(e2) =~= nodes_map(entries).remove(key));
    }
}

/// The index of the entry holding a node identifier, if any.
fn find_entry(nodes: &Vec<(String, NodeStatus)>, node_id: &str) -> (r: Option<usize>)
    ensures
        match r {
            Some(k) => k < nodes@.len() && nodes@[k as int].0@ == node_id@,
            None => forall|t: int| 0 <= t < nodes@.len() ==> nodes@[t].0@ != node_id@,
        },
{
    let mut k: usize = 0;
    while k < nodes.len()
        invariant
            k <= nodes@.len(),
            forall|t: int| 0 <= t < k ==> nodes@[t].0@ != node_id@,
        decreases nodes@.len() - k,
    {
        let entry = &nodes[k];
        if eq_str(entry.0.as_str(), node_id) {
            return Some(k);
        }
        k = k + 1;
    }
    None
}

/// Coordinator manages the distributed system components.
pub struct Coordinator {
    nodes: Vec<(String, NodeStatus)>,
}

impl View for Coordinator {
    type V = Map<Seq<char>, NodeStatus>;

    closed spec fn view(&self) -> Map<Seq<char>, NodeStatus> {
        nodes_map(self.nodes@)
    }
}

impl Coordinator {
    #[verifier::type_invariant]
    spec fn wf(&self) -> bool {
        node_keys_unique(self.nodes@)
    }

    /// A coordinator that knows no nodes yet.
    pub fn new() -> (r: Self)
        ensures
            r@ == Map::<Seq<char>, NodeStatus>::empty(),
    {
        Coordinator { nodes: Vec::new() }
    }

    /// Add a node to the cluster, replacing its status if it is already
    /// known.
    pub fn add_node(&mut self, node_id: String, status: NodeStatus)
        ensures
            final(self)@ == old(self)@.insert(node_id@, status),
    {
        proof {
            use_type_invariant(&*self);
        }
        let ghost entries0 = self.nodes@;
        let mut nodes: Vec<(String, NodeStatus)> = Vec::new();
        std::mem::swap(&mut nodes, &mut self.nodes);
        match find_entry(&nodes, node_id.as_str()) {
            Some(k) => {
                let _replaced = nodes.remove(k);
                nodes.insert(k, (node_id, status));
                proof {
                    assert(nodes@ =~= entries0.update(k as int, nodes@[k as int]));
                    lemma_nodes_map_update(entries0, k as int, nodes@[k as int]);
                    assert forall|p: int, q: int|
                        0 <= p < q < nodes@.len() implies nodes@[p].0@ != nodes@[q].0@ by {
                        assert(entries0[p].0@ != entries0[q].0@);
                    }
                }
            },
            None => {
                nodes.push((node_id, status));
                proof {
                    assert(nodes@.drop_last() =~= entries0);
                }
            },
        }
        self.nodes = nodes;
    }

    /// Remove a node from the cluster, returning its last status if it
    /// was known.
    pub fn remove_node(&mut self, node_id: &str) -> (r: Option<NodeStatus>)
        ensures
            final(self)@ == old(self)@.remove(node_id@),
            match r {
                Some(st) => old(self)@.contains_key(node_id@) && st == old(self)@[node_id@],
                None => !old(self)@.contains_key(node_id@),
            },
    {
        proof {
            use_type_invariant(&*self);
        }
        let ghost entries0 = self.nodes@;
        let mut nodes: Vec<(String, NodeStatus)> = Vec::new();
        std::mem::swap(&mut nodes, &mut self.nodes);
        let r = match find_entry(&nodes, node_id) {
            Some(k) => {
                proof {
                    lemma_nodes_map_found(entries0, k as int, node_id@);
                    lemma_nodes_map_remove(entries0, k as int);
                }
                let entry = nodes.remove(k);
                proof {
                    assert forall|p: int, q: int|
                        0 <= p < q < nodes@.len() implies nodes@[p].0@ != nodes@[q].0@ by {
                        let p0 = if p < k as int {
                            p
                        } else {
                            p + 1
                        };
                        let q0 = if q < k as int {
                            q
                        } else {
                            q + 1
                        };
                        assert(entries0[p0].0@ != entries0[q0].0@);
                    }
                }
                Some(entry.1)
            },
            None => {
                proof {
                    lemma_nodes_map_absent(entries0, node_id@);
                    assert(nodes_map(entries0).remove(node_id@) =~= nodes_map(entries0));
                }
                None
            },
        };
        self.nodes = nodes;
        r
    }

    /// Look up a node's status.
    pub fn get_node_status(&self, node_id: &str) -> (r: Option<&NodeStatus>)
        ensures
            match r {
                Some(st) => self@.contains_key(node_id@) && *st == self@[node_id@],
                None => !self@.contains_key(node_id@),
            },
    {
        proof {
            use_type_invariant(&*self);
        }
        match find_entry(&self.nodes, node_id) {
            Some(k) => {
                proof {
                    lemma_nodes_map_found(self.nodes@, k as int, node_id@);
                }
                Some(&self.nodes[k].1)
            },
            None => {
                proof {
                    lemma_nodes_map_absent(self.nodes@, node_id@);
                }
                None
            },
        }
    }

    /// Update the status of a known node, returning the status it had
    /// before; an unknown node is left alone.
    pub fn update_node_status(&mut self, node_id: &str, status: NodeStatus) -> (r: Option<
        NodeStatus,
    >)
        ensures
            match r {
                Some(st) => old(self)@.contains_key(node_id@) && st == old(self)@[node_id@]
                    && final(self)@ == old(self)@.insert(node_id@, status),
                None => !old(self)@.contains_key(node_id@) && final(self)@ == old(self)@,
            },
    {
        proof {
            use_type_invariant(&*self);
        }
        let ghost entries0 = self.nodes@;
        let mut nodes: Vec<(String, NodeStatus)> = Vec::new();
        std::mem::swap(&mut nodes, &mut self.nodes);
        let r = match find_entry(&nodes, node_id) {
            Some(k) => {
                proof {
                    lemma_nodes_map_found(entries0, k as int, node_id@);
                }
                let old_entry = nodes.remove(k);
                let old_status = old_entry.1;
                nodes.insert(k, (old_entry.0, status));
                proof {
                    assert(nodes@ =~= entries0.update(k as int, nodes@[k as int]));
                    lemma_nodes_map_update(entries0, k as int, nodes@[k as int]);
                    assert forall|p: int, q: int|
                        0 <= p < q < nodes@.len() implies nodes@[p].0@ != nodes@[q].0@ by {
                        assert(entries0[p].0@ != entries0[q].0@);
                    }
                }
                Some(old_status)
            },
            None => {
                proof {
                    lemma_nodes_map_absent(entries0, node_id@);
                }
                None
            },
        };
        self.nodes = nodes;
        r
    }

    /// Execute a SQL query by parsing it and routing it to the handler
    /// for its statement form.  The call succeeds exactly when the query
    /// parses; a parse failure becomes a `SqlParsing` error naming the
    /// character position at which the grammar got stuck.
    pub fn execute_query(&mut self, query: String, parameters: HashMap<String, String>) -> (r:
        Result<Vec<HashMap<String, String>>, DatabaseError>)
        ensures
            final(self)@ == old(self)@,
            match r {
                Ok(rows) => sp_statement(query@) is Some && rows@.len() == 0,
                Err(e) => sp_statement(query@) is None && e matches DatabaseError::SqlParsing(_),
            },
    {
        match parse_sql(query.as_str()) {
            Ok(stmt) => match stmt {
                SqlStatement::Select { columns, table, where_clause, limit } => self
                    .handle_select(columns, table, where_clause, limit, &parameters),
                SqlStatement::Insert { table, columns, values } => self.handle_insert(
                    table,
                    columns,
                    values,
                    &parameters,
                ),
                SqlStatement::Update { table, assignments, where_clause } => self.handle_update(
                    table,
                    assignments,
                    where_clause,
                    &parameters,
                ),
                SqlStatement::Delete { table, where_clause } => self.handle_delete(
                    table,
                    where_clause,
                    &parameters,
                ),
                SqlStatement::CreateTable { name, columns } => self.handle_create_table(
                    name,
                    columns,
                    &parameters,
                ),
            },
            Err(e) => Err(DatabaseError::SqlParsing(e.describe())),
        }
    }

    /// Handle `SELECT` queries.  Distributed execution is outside this
    /// core: the handler accepts the statement and returns no rows.
    fn handle_select(
        &mut self,
        columns: Vec<String>,
        table: String,
        where_clause: Option<WhereClause>,
        limit: Option<usize>,
        parameters: &HashMap<String, String>,
    ) -> (r: Result<Vec<HashMap<String, String>>, DatabaseError>)
        ensures
            final(self)@ == old(self)@,
            r matches Ok(rows) && rows@.len() == 0,
    {
        let _ = (columns, table, where_clause, limit, parameters);
        Ok(Vec::new())
    }

    /// Handle `INSERT` queries; see [`Self::handle_select`].
    fn handle_insert(
        &mut self,
        table: String,
        columns: Vec<String>,
        values: Vec<SqlValue>,
        parameters: &HashMap<String, String>,
    ) -> (r: Result<Vec<HashMap<String, String>>, DatabaseError>)
        ensures
            final(self)@ == old(self)@,
            r matches Ok(rows) && rows@.len() == 0,
    {
        let _ = (table, columns, values, parameters);
        Ok(Vec::new())
    }

    /// Handle `UPDATE` queries; see [`Self::handle_select`].
    fn handle_update(
        &mut self,
        table: String,
        assignments: Vec<(String, SqlValue)>,
        where_clause: Option<WhereClause>,
        parameters: &HashMap<String, String>,
    ) -> (r: Result<Vec<HashMap<String, String>>, DatabaseError>)
        ensures
            final(self)@ == old(self)@,
            r matches Ok(rows) && rows@.len() == 0,
    {
        let _ = (table, assignments, where_clause, parameters);
        Ok(Vec::new())
    }

    /// Handle `DELETE` queries; see [`Self::handle_select`].
    fn handle_delete(
        &mut self,
        table: String,
        where_clause: Option<WhereClause>,
        parameters: &HashMap<String, String>,
    ) -> (r: Result<Vec<HashMap<String, String>>, DatabaseError>)
        ensures
            final(self)@ == old(self)@,
            r matches Ok(rows) && rows@.len() == 0,
    {
        let _ = (table, where_clause, parameters);
        Ok(Vec::new())
    }

    /// Handle `CREATE TABLE` queries; see [`Self::handle_select`].
    fn handle_create_table(
        &mut self,
        name: String,
        columns: Vec<ColumnDef>,
        parameters: &HashMap<String, String>,
    ) -> (r: Result<Vec<HashMap<String, String>>, DatabaseError>)
        ensures
            final(self)@ == old(self)@,
            r matches Ok(rows) && rows@.len() == 0,
    {
        let _ = (name, columns, parameters);
        Ok(Vec::new())
    }

    /// Get a value by key (key-value access).  Storage is outside this
    /// core: the call succeeds with no data.
    pub fn get(&mut self, key: String) -> (r: Result<Vec<u8>, DatabaseError>)
        ensures
            final(self)@ == old(self)@,
            r matches Ok(v) && v@.len() == 0,
    {
        let _ = key;
        Ok(Vec::new())
    }

    /// Store a key-value pair (key-value access); see [`Self::get`].
    pub fn put(&mut self, key: String, value: Vec<u8>) -> (r: Result<(), DatabaseError>)
        ensures
            final(self)@ == old(self)@,
            r is Ok,
    {
        let _ = (key, value);
        Ok(())
    }

    /// Delete a key (key-value access); see [`Self::get`].
    pub fn delete(&mut self, key: String) -> (r: Result<(), DatabaseError>)
        ensures
            final(self)@ == old(self)@,
            r is Ok,
    {
        let _ = key;
        Ok(())
    }

    /// Scan a range of keys (key-value access); see [`Self::get`].
    pub fn scan(&mut self, start_key: String, end_key: String, limit: i32) -> (r: Result<
        Vec<(String, Vec<u8>)>,
        DatabaseError,
    >)
        ensures
            final(self)@ == old(self)@,
            r matches Ok(v) && v@.len() == 0,
    {
        let _ = (start_key, end_key, limit);
        Ok(Vec::new())
    }
}

} // verus!

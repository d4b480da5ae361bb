//! Common types used across the database system.

use vstd::prelude::*;

verus! {

/// A unique identifier for a node in the cluster.
#[derive(Debug, Clone, PartialEq, Eq, Hash)]
pub struct NodeId(pub String);

impl From<String> for NodeId {
    fn from(s: String) -> (r: Self) {
        NodeId(s)
    }
}

impl vstd::std_specs::convert::FromSpecImpl<String> for NodeId {
    open spec fn obeys_from_spec() -> bool {
        true
    }

    open spec fn from_spec(s: String) -> Self {
        NodeId(s)
    }
}

// ---------------------------------------------------------------------------
// Lexicographic order on text
// ---------------------------------------------------------------------------

/// Strict lexicographic order on character sequences, by code point.  For
/// valid UTF-8 this coincides with the byte-wise order of the encoded
/// strings, since UTF-8 preserves code-point order.
pub open spec fn lex_lt(a: Seq<char>, b: Seq<char>) -> bool
    decreases a.len(),
{
    if b.len() == 0 {
        false
    } else if a.len() == 0 {
        true
    } else if (a[0] as int) < (b[0] as int) {
        true
    } else if (a[0] as int) > (b[0] as int) {
        false
    } else {
        lex_lt(a.drop_first(), b.drop_first())
    }
}

/// Non-strict lexicographic order.
pub open spec fn lex_le(a: Seq<char>, b: Seq<char>) -> bool {
    lex_lt(a, b) || a == b
}

/// The lexicographic order is a strict total order: of `a < b`, `b < a`
/// and `a == b`, exactly one holds.
pub proof fn lemma_lex_trichotomy(a: Seq<char>, b: Seq<char>)
    ensures
        lex_lt(a, b) <==> !(lex_lt(b, a) || a == b),
    decreases a.len(),
{
    if a.len() == 0 && b.len() == 0 {
        assert(a =~= b);
    }
    if a.len() != 0 && b.len() != 0 && a[0] == b[0] {
        lemma_lex_trichotomy(a.drop_first(), b.drop_first());
        if a.drop_first() == b.drop_first() {
            assert forall|i: int| 0 <= i < a.len() implies a[i] == b[i] by {
                if i > 0 {
                    assert(a[i] == a.drop_first()[i - 1]);
                    assert(b[i] == b.drop_first()[i - 1]);
                }
            }
            assert(a =~= b);
        }
        if a == b {
            assert(a.drop_first() =~= b.drop_first());
        }
    }
}

/// Decide the strict lexicographic order on two pieces of text.
fn lex_str_lt(a: &str, b: &str) -> (r: bool)
    ensures
        r == lex_lt(a@, b@),
{
    let na = a.unicode_len();
    let nb = b.unicode_len();
    let mut k: usize = 0;
    proof {
        assert(a@.skip(0) =~= a@);
        assert(b@.skip(0) =~= b@);
    }
    while k < na && k < nb
        invariant
            k <= na,
            k <= nb,
            na == a@.len(),
            nb == b@.len(),
            lex_lt(a@, b@) == lex_lt(a@.skip(k as int), b@.skip(k as int)),
        decreases na - k,
    {
        let ca = a.get_char(k);
        let cb = b.get_char(k);
        if (ca as u32) < (cb as u32) {
            return true;
        }
        if (ca as u32) > (cb as u32) {
            return false;
        }
        proof {
            assert(a@.skip(k as int).drop_first() =~= a@.skip(k + 1 as int));
            assert(b@.skip(k as int).drop_first() =~= b@.skip(k + 1 as int));
        }
        k = k + 1;
    }
    proof {
        if na <= nb {
            assert(a@.skip(k as int) =~= Seq::<char>::empty());
        }
        if nb <= na {
            assert(b@.skip(k as int) =~= Seq::<char>::empty());
        }
    }
    na < nb
}

// ---------------------------------------------------------------------------
// Key ranges
// ---------------------------------------------------------------------------

/// A half-open range of keys: `start` inclusive, `end` exclusive.
#[derive(Debug, Clone)]
pub struct KeyRange {
    pub start: String,
    pub end: String,
}

impl KeyRange {
    /// Build the range from its two bounds.
    pub fn new(start: String, end: String) -> (r: Self)
        ensures
            r.start == start,
            r.end == end,
    {
        KeyRange { start, end }
    }

    /// Check whether a key lies within this range: at or after `start`,
    /// strictly before `end`.
    pub fn contains(&self, key: &str) -> (r: bool)
        ensures
            r == (lex_le(self.start@, key@) && lex_lt(key@, self.end@)),
    {
        proof {
            lemma_lex_trichotomy(key@, self.start@);
        }
        let ge = !lex_str_lt(key, self.start.as_str());
        let lt = lex_str_lt(key, self.end.as_str());
        ge && lt
    }
}

// ---------------------------------------------------------------------------
// Cluster bookkeeping
// ---------------------------------------------------------------------------

/// Information about a partition in the database.
#[derive(Debug, Clone)]
pub struct PartitionInfo {
    pub id: u64,
    pub range: KeyRange,
    pub leader: NodeId,
    pub followers: Vec<NodeId>,
}

/// A log entry in the replication log.  The timestamp is kept as plain
/// milliseconds since the Unix epoch.
#[derive(Debug, Clone)]
pub struct LogEntry {
    pub term: u64,
    pub index: u64,
    pub command: Command,
    pub timestamp: u64,
}

/// Commands that can be executed on the database.
#[derive(Debug, Clone)]
pub enum Command {
    Write { key: String, value: Vec<u8> },
    Delete { key: String },
    CreatePartition { partition: PartitionInfo },
    UpdatePartition { partition: PartitionInfo },
    DeletePartition { partition_id: u64 },
}

/// Metadata about the cluster: the known nodes and partitions, each
/// listed once, and a version counter.
#[derive(Debug, Clone)]
pub struct ClusterMetadata {
    pub nodes: Vec<NodeInfo>,
    pub partitions: Vec<PartitionInfo>,
    pub version: u64,
}

/// Information about a node in the cluster.  The last heartbeat, when
/// one was seen, is kept as milliseconds since the Unix epoch.
#[derive(Debug, Clone)]
pub struct NodeInfo {
    pub id: NodeId,
    pub address: String,
    pub status: NodeStatus,
    pub last_heartbeat: Option<u64>,
}

/// The status of a node in the cluster.
#[derive(Debug, Clone, Copy, PartialEq, Eq, Structural)]
pub enum NodeStatus {
    Active,
    Inactive,
    Joining,
    Leaving,
}

} // verus!

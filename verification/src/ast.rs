//! Abstract syntax tree produced by the SQL parser, together with the
//! mathematical view of each node used in specifications.
//!
//! Every node is an immutable value tree: `And`/`Or` children are owned
//! boxes, column and value lists keep their source order, and no node is
//! shared between two parents.

use vstd::prelude::*;
use vstd::string::StringExecFns;

use crate::util::dec_rep;
use crate::util::decimal_string;

verus! {

/// A parsed SQL statement: one of the five supported statement forms.
#[derive(Debug, PartialEq, Eq)]
pub enum SqlStatement {
    Select {
        columns: Vec<String>,
        table: String,
        where_clause: Option<WhereClause>,
        limit: Option<usize>,
    },
    Insert {
        table: String,
        columns: Vec<String>,
        values: Vec<SqlValue>,
    },
    Update {
        table: String,
        assignments: Vec<(String, SqlValue)>,
        where_clause: Option<WhereClause>,
    },
    Delete {
        table: String,
        where_clause: Option<WhereClause>,
    },
    CreateTable {
        name: String,
        columns: Vec<ColumnDef>,
    },
}

/// One column of a `CREATE TABLE` statement.
///
/// A column with no nullability modifier defaults to `nullable == true`;
/// `PRIMARY KEY` is recorded independently of nullability.
#[derive(Debug, Clone, PartialEq, Eq)]
pub struct ColumnDef {
    pub name: String,
    pub data_type: DataType,
    pub nullable: bool,
    pub primary_key: bool,
}

/// The closed set of column data types.  `VARCHAR(n)` maps to `String`;
/// the length digits are recognized lexically but not retained.
#[derive(Debug, Clone, Copy, PartialEq, Eq, Structural)]
pub enum DataType {
    Int,
    Float,
    String,
    Bool,
    Blob,
    Timestamp,
}

/// The condition tree of a `WHERE` clause.
#[derive(Debug, PartialEq, Eq)]
pub struct WhereClause {
    pub condition: Condition,
}

/// A boolean condition: comparison leaves joined by `AND` / `OR` nodes.
/// Chains of one operator group to the right, so `a AND b AND c` parses
/// as `And(a, And(b, c))`.
#[derive(Debug, PartialEq, Eq)]
pub enum Condition {
    Comparison { left: String, op: ComparisonOp, right: SqlValue },
    And(Box<Condition>, Box<Condition>),
    Or(Box<Condition>, Box<Condition>),
}

/// A comparison operator of a condition leaf.
#[derive(Debug, Clone, Copy, PartialEq, Eq, Structural)]
pub enum ComparisonOp {
    Eq,
    NotEq,
    Lt,
    LtEq,
    Gt,
    GtEq,
    Like,
}

/// A literal or parameter placeholder appearing in a statement.
///
/// A float literal keeps its exact source text (sign, integer digits, dot,
/// fraction digits); callers that need a machine float convert the text
/// themselves, so the tree itself stays exact.
#[derive(Debug, Clone, PartialEq, Eq)]
pub enum SqlValue {
    String(String),
    Integer(i64),
    Float(String),
    Boolean(bool),
    Null,
    Parameter(String),
}

/// The single parser error: no grammar alternative matched.  `offset` is a
/// character position within the input at which a rule failed; it never
/// exceeds the input length.
#[derive(Debug, Clone, PartialEq, Eq)]
pub struct ParseError {
    pub offset: usize,
}

impl ParseError {
    /// A human-readable message naming the failing position.
    pub fn describe(&self) -> (r: String)
        ensures
            r@ == "syntax error at character "@ + dec_rep(self.offset as int),
    {
        String::from_str("syntax error at character ").concat(
            decimal_string(self.offset).as_str(),
        )
    }
}

/// Mathematical view of [`SqlValue`].
pub enum SqlValueV {
    StrV(Seq<char>),
    IntV(int),
    FloatV(Seq<char>),
    BoolV(bool),
    NullV,
    ParamV(Seq<char>),
}

/// Mathematical view of [`Condition`].
pub enum ConditionV {
    Comparison { left: Seq<char>, op: ComparisonOp, right: SqlValueV },
    And(Box<ConditionV>, Box<ConditionV>),
    Or(Box<ConditionV>, Box<ConditionV>),
}

/// Mathematical view of [`ColumnDef`].
pub struct ColumnDefV {
    pub name: Seq<char>,
    pub data_type: DataType,
    pub nullable: bool,
    pub primary_key: bool,
}

/// Mathematical view of [`SqlStatement`].
pub enum SqlStatementV {
    Select {
        columns: Seq<Seq<char>>,
        table: Seq<char>,
        where_clause: Option<ConditionV>,
        limit: Option<int>,
    },
    Insert {
        table: Seq<char>,
        columns: Seq<Seq<char>>,
        values: Seq<SqlValueV>,
    },
    Update {
        table: Seq<char>,
        assignments: Seq<(Seq<char>, SqlValueV)>,
        where_clause: Option<ConditionV>,
    },
    Delete {
        table: Seq<char>,
        where_clause: Option<ConditionV>,
    },
    CreateTable {
        name: Seq<char>,
        columns: Seq<ColumnDefV>,
    },
}

impl View for SqlValue {
    type V = SqlValueV;

    open spec fn view(&self) -> SqlValueV {
        match self {
            SqlValue::String(s) => SqlValueV::StrV(s@),
            SqlValue::Integer(n) => SqlValueV::IntV(*n as int),
            SqlValue::Float(t) => SqlValueV::FloatV(t@),
            SqlValue::Boolean(b) => SqlValueV::BoolV(*b),
            SqlValue::Null => SqlValueV::NullV,
            SqlValue::Parameter(p) => SqlValueV::ParamV(p@),
        }
    }
}

impl DeepView for SqlValue {
    type V = SqlValueV;

    open spec fn deep_view(&self) -> SqlValueV {
        self.view()
    }
}

/// Recursive view of a [`Condition`] tree, defined outside the trait so the
/// structural recursion is direct.
pub open spec fn condition_view(c: Condition) -> ConditionV
    decreases c,
{
    match c {
        Condition::Comparison { left, op, right } => ConditionV::Comparison {
            left: left@,
            op,
            right: right@,
        },
        Condition::And(a, b) => ConditionV::And(
            Box::new(condition_view(*a)),
            Box::new(condition_view(*b)),
        ),
        Condition::Or(a, b) => ConditionV::Or(
            Box::new(condition_view(*a)),
            Box::new(condition_view(*b)),
        ),
    }
}

impl View for Condition {
    type V = ConditionV;

    open spec fn view(&self) -> ConditionV {
        condition_view(*self)
    }
}

impl DeepView for Condition {
    type V = ConditionV;

    open spec fn deep_view(&self) -> ConditionV {
        self.view()
    }
}

impl View for WhereClause {
    type V = ConditionV;

    open spec fn view(&self) -> ConditionV {
        self.condition@
    }
}

impl DeepView for WhereClause {
    type V = ConditionV;

    open spec fn deep_view(&self) -> ConditionV {
        self.view()
    }
}

impl View for ColumnDef {
    type V = ColumnDefV;

    open spec fn view(&self) -> ColumnDefV {
        ColumnDefV {
            name: self.name@,
            data_type: self.data_type,
            nullable: self.nullable,
            primary_key: self.primary_key,
        }
    }
}

impl DeepView for ColumnDef {
    type V = ColumnDefV;

    open spec fn deep_view(&self) -> ColumnDefV {
        self.view()
    }
}

impl View for SqlStatement {
    type V = SqlStatementV;

    open spec fn view(&self) -> SqlStatementV {
        match self {
            SqlStatement::Select { columns, table, where_clause, limit } => SqlStatementV::Select {
                columns: columns.deep_view(),
                table: table@,
                where_clause: where_clause.deep_view(),
                limit: match limit {
                    Some(n) => Some(*n as int),
                    None => None,
                },
            },
            SqlStatement::Insert { table, columns, values } => SqlStatementV::Insert {
                table: table@,
                columns: columns.deep_view(),
                values: values.deep_view(),
            },
            SqlStatement::Update { table, assignments, where_clause } => SqlStatementV::Update {
                table: table@,
                assignments: assignments.deep_view(),
                where_clause: where_clause.deep_view(),
            },
            SqlStatement::Delete { table, where_clause } => SqlStatementV::Delete {
                table: table@,
                where_clause: where_clause.deep_view(),
            },
            SqlStatement::CreateTable { name, columns } => SqlStatementV::CreateTable {
                name: name@,
                columns: columns.deep_view(),
            },
        }
    }
}

impl DeepView for SqlStatement {
    type V = SqlStatementV;

    open spec fn deep_view(&self) -> SqlStatementV {
        self.view()
    }
}

} // verus!

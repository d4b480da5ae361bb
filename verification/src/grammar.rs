//! The SQL grammar as a mathematical definition.
//!
//! Every rule of the parsing-expression grammar is a total spec function
//! from the input character sequence and a start position to either
//! `None` (the rule fails at that position) or `Some((result, end))`,
//! where `end` is the position just past the consumed text.  Alternatives
//! are ordered: the first alternative that succeeds wins and later ones
//! are never attempted.  A failed alternative consumes nothing, so the
//! next alternative is tried from the same position.
//!
//! The executable parser is verified to return exactly what these
//! functions denote.

use vstd::prelude::*;

use crate::ast::ColumnDefV;
use crate::ast::ComparisonOp;
use crate::ast::ConditionV;
use crate::ast::DataType;
use crate::ast::SqlStatementV;
use crate::ast::SqlValueV;

verus! {

// ---------------------------------------------------------------------------
// Character classes
// ---------------------------------------------------------------------------

/// Whitespace accepted between tokens.
pub open spec fn is_ws(c: char) -> bool {
    c == ' ' || c == '\t' || c == '\r' || c == '\n'
}

/// A decimal digit.
pub open spec fn is_digit(c: char) -> bool {
    48 <= (c as int) && (c as int) <= 57
}

/// An ASCII letter, the only character that may start an unquoted
/// identifier.
pub open spec fn is_letter(c: char) -> bool {
    (65 <= (c as int) && (c as int) <= 90) || (97 <= (c as int) && (c as int) <= 122)
}

/// A character that may continue an unquoted identifier.
pub open spec fn is_ident_char(c: char) -> bool {
    is_letter(c) || is_digit(c) || c == '_'
}

/// The numeric value of a run of decimal digits, most significant first.
pub open spec fn digits_val(w: Seq<char>) -> int
    decreases w.len(),
{
    if w.len() == 0 {
        0
    } else {
        digits_val(w.drop_last()) * 10 + (w.last() as int - 48)
    }
}

// ---------------------------------------------------------------------------
// Reserved keywords
// ---------------------------------------------------------------------------

/// The reserved words: a candidate identifier span that is exactly equal
/// (case-sensitively) to one of these is rejected as an identifier.
pub open spec fn is_keyword(w: Seq<char>) -> bool {
    ||| w == "SELECT"@
    ||| w == "FROM"@
    ||| w == "WHERE"@
    ||| w == "INSERT"@
    ||| w == "INTO"@
    ||| w == "VALUES"@
    ||| w == "UPDATE"@
    ||| w == "SET"@
    ||| w == "DELETE"@
    ||| w == "CREATE"@
    ||| w == "TABLE"@
    ||| w == "AND"@
    ||| w == "OR"@
    ||| w == "NOT"@
    ||| w == "NULL"@
    ||| w == "PRIMARY"@
    ||| w == "KEY"@
    ||| w == "INT"@
    ||| w == "INTEGER"@
    ||| w == "FLOAT"@
    ||| w == "VARCHAR"@
    ||| w == "TEXT"@
    ||| w == "BOOLEAN"@
    ||| w == "BLOB"@
    ||| w == "TIMESTAMP"@
    ||| w == "LIMIT"@
}

// ---------------------------------------------------------------------------
// Lexical scanning primitives
// ---------------------------------------------------------------------------

/// Skip zero or more whitespace characters; returns the first position at
/// or after `i` that does not hold whitespace.
pub open spec fn sp_ws(s: Seq<char>, i: int) -> int
    decreases s.len() - i,
{
    if 0 <= i && i < s.len() && is_ws(s[i]) {
        sp_ws(s, i + 1)
    } else {
        i
    }
}

/// Require at least one whitespace character, then skip the whole run.
pub open spec fn sp_ws1(s: Seq<char>, i: int) -> Option<int> {
    if 0 <= i && i < s.len() && is_ws(s[i]) {
        Some(sp_ws(s, i))
    } else {
        None
    }
}

/// Match the exact text `w` at position `i`.
pub open spec fn sp_lit(s: Seq<char>, i: int, w: Seq<char>) -> Option<int> {
    if 0 <= i && i + w.len() <= s.len() && s.subrange(i, i + w.len()) == w {
        Some(i + w.len())
    } else {
        None
    }
}

/// The end of the maximal run of identifier characters starting at `i`.
pub open spec fn sp_ident_end(s: Seq<char>, i: int) -> int
    decreases s.len() - i,
{
    if 0 <= i && i < s.len() && is_ident_char(s[i]) {
        sp_ident_end(s, i + 1)
    } else {
        i
    }
}

/// The end of the maximal run of decimal digits starting at `i`.
pub open spec fn sp_digits_end(s: Seq<char>, i: int) -> int
    decreases s.len() - i,
{
    if 0 <= i && i < s.len() && is_digit(s[i]) {
        sp_digits_end(s, i + 1)
    } else {
        i
    }
}

/// The position of the first occurrence of `c` at or after `i`, if any.
pub open spec fn sp_find(s: Seq<char>, i: int, c: char) -> Option<int>
    decreases s.len() - i,
{
    if 0 <= i && i < s.len() {
        if s[i] == c {
            Some(i)
        } else {
            sp_find(s, i + 1, c)
        }
    } else {
        None
    }
}

// ---------------------------------------------------------------------------
// Identifiers
// ---------------------------------------------------------------------------

/// An identifier: a letter followed by letters, digits and underscores,
/// provided the whole span is not a reserved keyword; or any text between
/// backticks, which bypasses the keyword check.
pub open spec fn sp_identifier(s: Seq<char>, i: int) -> Option<(Seq<char>, int)> {
    if 0 <= i && i < s.len() && is_letter(s[i]) {
        let j = sp_ident_end(s, i + 1);
        let w = s.subrange(i, j);
        if is_keyword(w) {
            None
        } else {
            Some((w, j))
        }
    } else if 0 <= i && i < s.len() && s[i] == '`' {
        match sp_find(s, i + 1, '`') {
            Some(j) => Some((s.subrange(i + 1, j), j + 1)),
            None => None,
        }
    } else {
        None
    }
}

// ---------------------------------------------------------------------------
// Literals
// ---------------------------------------------------------------------------

/// An optional minus sign followed by one or more digits: the shared shape
/// of the integer rule and of the part of a float before the dot.
/// Returns the sign, the digit run, and the end position.
pub open spec fn sp_int_lexeme(s: Seq<char>, i: int) -> Option<(bool, Seq<char>, int)> {
    if 0 <= i && i < s.len() && s[i] == '-' {
        let j = sp_digits_end(s, i + 1);
        if j > i + 1 {
            Some((true, s.subrange(i + 1, j), j))
        } else {
            None
        }
    } else if 0 <= i {
        let j = sp_digits_end(s, i);
        if j > i {
            Some((false, s.subrange(i, j), j))
        } else {
            None
        }
    } else {
        None
    }
}

/// An integer literal.  The rule fails when the written value does not fit
/// a 64-bit signed integer, so the parser never has to truncate.
pub open spec fn sp_integer(s: Seq<char>, i: int) -> Option<(int, int)> {
    match sp_int_lexeme(s, i) {
        Some((neg, w, j)) => {
            let v = if neg {
                -digits_val(w)
            } else {
                digits_val(w)
            };
            if i64::MIN <= v && v <= i64::MAX {
                Some((v, j))
            } else {
                None
            }
        },
        None => None,
    }
}

/// A float literal: optional minus sign, one or more digits, a dot, zero
/// or more digits.  The result is the exact source text of the literal.
pub open spec fn sp_float(s: Seq<char>, i: int) -> Option<(Seq<char>, int)> {
    match sp_int_lexeme(s, i) {
        Some((neg, w, j)) => {
            if j < s.len() && s[j] == '.' {
                let k = sp_digits_end(s, j + 1);
                Some((s.subrange(i, k), k))
            } else {
                None
            }
        },
        None => None,
    }
}

/// A string literal: single- or double-quoted, the body taken verbatim up
/// to the first matching quote, with no escape processing.
pub open spec fn sp_string_lit(s: Seq<char>, i: int) -> Option<(Seq<char>, int)> {
    if 0 <= i && i < s.len() && (s[i] == '\'' || s[i] == '"') {
        match sp_find(s, i + 1, s[i]) {
            Some(j) => Some((s.subrange(i + 1, j), j + 1)),
            None => None,
        }
    } else {
        None
    }
}

/// A literal or parameter value.  Ordered choice: string, float, integer,
/// TRUE, FALSE, NULL, named parameter, positional parameter.  Trying the
/// float alternative before the integer one keeps an integer rule from
/// consuming the digits in front of a decimal point.
pub open spec fn sp_value(s: Seq<char>, i: int) -> Option<(SqlValueV, int)> {
    match sp_string_lit(s, i) {
        Some((w, j)) => Some((SqlValueV::StrV(w), j)),
        None => match sp_float(s, i) {
            Some((w, j)) => Some((SqlValueV::FloatV(w), j)),
            None => match sp_integer(s, i) {
                Some((v, j)) => Some((SqlValueV::IntV(v), j)),
                None => match sp_lit(s, i, "TRUE"@) {
                    Some(j) => Some((SqlValueV::BoolV(true), j)),
                    None => match sp_lit(s, i, "FALSE"@) {
                        Some(j) => Some((SqlValueV::BoolV(false), j)),
                        None => match sp_lit(s, i, "NULL"@) {
                            Some(j) => Some((SqlValueV::NullV, j)),
                            None => if 0 <= i && i < s.len() && s[i] == ':' {
                                match sp_identifier(s, i + 1) {
                                    Some((w, j)) => Some((SqlValueV::ParamV(w), j)),
                                    None => None,
                                }
                            } else if 0 <= i && i < s.len() && s[i] == '?' {
                                Some((SqlValueV::ParamV("?"@), i + 1))
                            } else {
                                None
                            },
                        },
                    },
                },
            },
        },
    }
}

// ---------------------------------------------------------------------------
// Conditions
// ---------------------------------------------------------------------------

/// A comparison operator.  Ordered so that two-character operators are
/// tried before their one-character prefixes.
pub open spec fn sp_comparison_op(s: Seq<char>, i: int) -> Option<(ComparisonOp, int)> {
    match sp_lit(s, i, "="@) {
        Some(j) => Some((ComparisonOp::Eq, j)),
        None => match sp_lit(s, i, "!="@) {
            Some(j) => Some((ComparisonOp::NotEq, j)),
            None => match sp_lit(s, i, "<>"@) {
                Some(j) => Some((ComparisonOp::NotEq, j)),
                None => match sp_lit(s, i, "<="@) {
                    Some(j) => Some((ComparisonOp::LtEq, j)),
                    None => match sp_lit(s, i, "<"@) {
                        Some(j) => Some((ComparisonOp::Lt, j)),
                        None => match sp_lit(s, i, ">="@) {
                            Some(j) => Some((ComparisonOp::GtEq, j)),
                            None => match sp_lit(s, i, ">"@) {
                                Some(j) => Some((ComparisonOp::Gt, j)),
                                None => match sp_lit(s, i, "LIKE"@) {
                                    Some(j) => Some((ComparisonOp::Like, j)),
                                    None => None,
                                },
                            },
                        },
                    },
                },
            },
        },
    }
}

/// A comparison leaf: identifier, operator, value, each wrapped in
/// optional whitespace.
pub open spec fn sp_comparison(s: Seq<char>, i: int) -> Option<(ConditionV, int)> {
    let i1 = sp_ws(s, i);
    match sp_identifier(s, i1) {
        Some((left, j)) => {
            let j1 = sp_ws(s, j);
            match sp_comparison_op(s, j1) {
                Some((op, k)) => {
                    let k1 = sp_ws(s, k);
                    match sp_value(s, k1) {
                        Some((right, m)) => Some(
                            (ConditionV::Comparison { left, op, right }, sp_ws(s, m)),
                        ),
                        None => None,
                    }
                },
                None => None,
            }
        },
        None => None,
    }
}

/// A chain of comparisons joined by `AND`, grouping to the right.  If the
/// text after `AND` is not itself a valid chain, the alternative backs off
/// to the plain comparison.
pub open spec fn sp_and_condition(s: Seq<char>, i: int) -> Option<(ConditionV, int)>
    decreases s.len() - i,
{
    match sp_comparison(s, i) {
        Some((l, j)) => {
            let j1 = sp_ws(s, j);
            match sp_lit(s, j1, "AND"@) {
                Some(k) => {
                    let k1 = sp_ws(s, k);
                    if i < k1 && k1 <= s.len() {
                        match sp_and_condition(s, k1) {
                            Some((r, m)) => Some(
                                (ConditionV::And(Box::new(l), Box::new(r)), m),
                            ),
                            None => Some((l, j)),
                        }
                    } else {
                        Some((l, j))
                    }
                },
                None => Some((l, j)),
            }
        },
        None => None,
    }
}

/// A full condition: `AND`-chains joined by `OR`, grouping to the right.
/// `AND` binds tighter than `OR` because an `OR` operand is a whole
/// `AND`-chain.
pub open spec fn sp_condition(s: Seq<char>, i: int) -> Option<(ConditionV, int)>
    decreases s.len() - i,
{
    match sp_and_condition(s, i) {
        Some((l, j)) => {
            let j1 = sp_ws(s, j);
            match sp_lit(s, j1, "OR"@) {
                Some(k) => {
                    let k1 = sp_ws(s, k);
                    if i < k1 && k1 <= s.len() {
                        match sp_condition(s, k1) {
                            Some((r, m)) => Some(
                                (ConditionV::Or(Box::new(l), Box::new(r)), m),
                            ),
                            None => Some((l, j)),
                        }
                    } else {
                        Some((l, j))
                    }
                },
                None => Some((l, j)),
            }
        },
        None => None,
    }
}

/// An optional `WHERE` clause: the keyword, required whitespace, then a
/// condition.  Whitespace before the keyword is optional, because the rule
/// that precedes the clause may already have consumed the separating run.
pub open spec fn sp_where(s: Seq<char>, i: int) -> Option<(ConditionV, int)> {
    let i1 = sp_ws(s, i);
    match sp_lit(s, i1, "WHERE"@) {
        Some(i2) => match sp_ws1(s, i2) {
            Some(i3) => sp_condition(s, i3),
            None => None,
        },
        None => None,
    }
}

/// An optional trailing `LIMIT` clause with an unsigned decimal count.
/// The rule fails when the count does not fit the machine's word size.
/// As with [`sp_where`], whitespace before the keyword is optional.
pub open spec fn sp_limit(s: Seq<char>, i: int) -> Option<(int, int)> {
    let i1 = sp_ws(s, i);
    match sp_lit(s, i1, "LIMIT"@) {
        Some(i2) => match sp_ws1(s, i2) {
            Some(i3) => {
                let j = sp_digits_end(s, i3);
                if j > i3 {
                    let v = digits_val(s.subrange(i3, j));
                    if v <= usize::MAX {
                        Some((v, j))
                    } else {
                        None
                    }
                } else {
                    None
                }
            },
            None => None,
        },
        None => None,
    }
}

// ---------------------------------------------------------------------------
// Comma-separated lists
// ---------------------------------------------------------------------------

/// Further identifiers after the first: each is a comma, optional
/// whitespace, then an identifier.  Never fails; stops before the first
/// comma not followed by an identifier.
pub open spec fn sp_ident_list_rest(s: Seq<char>, i: int) -> (Seq<Seq<char>>, int)
    decreases s.len() - i,
{
    match sp_lit(s, i, ","@) {
        Some(j) => {
            let j1 = sp_ws(s, j);
            match sp_identifier(s, j1) {
                Some((w, k)) => {
                    if i < k && k <= s.len() {
                        let rest = sp_ident_list_rest(s, k);
                        (seq![w] + rest.0, rest.1)
                    } else {
                        (Seq::empty(), i)
                    }
                },
                None => (Seq::empty(), i),
            }
        },
        None => (Seq::empty(), i),
    }
}

/// One or more identifiers separated by commas.
pub open spec fn sp_ident_list(s: Seq<char>, i: int) -> Option<(Seq<Seq<char>>, int)> {
    match sp_identifier(s, i) {
        Some((w, j)) => {
            let rest = sp_ident_list_rest(s, j);
            Some((seq![w] + rest.0, rest.1))
        },
        None => None,
    }
}

/// The column list of a `SELECT`: either the single token `*` or a
/// comma-separated identifier list.
pub open spec fn sp_column_list(s: Seq<char>, i: int) -> Option<(Seq<Seq<char>>, int)> {
    match sp_lit(s, i, "*"@) {
        Some(j) => Some((seq!["*"@], j)),
        None => sp_ident_list(s, i),
    }
}

/// Further values after the first, as in [`sp_ident_list_rest`].
pub open spec fn sp_value_list_rest(s: Seq<char>, i: int) -> (Seq<SqlValueV>, int)
    decreases s.len() - i,
{
    match sp_lit(s, i, ","@) {
        Some(j) => {
            let j1 = sp_ws(s, j);
            match sp_value(s, j1) {
                Some((v, k)) => {
                    if i < k && k <= s.len() {
                        let rest = sp_value_list_rest(s, k);
                        (seq![v] + rest.0, rest.1)
                    } else {
                        (Seq::empty(), i)
                    }
                },
                None => (Seq::empty(), i),
            }
        },
        None => (Seq::empty(), i),
    }
}

/// One or more values separated by commas.
pub open spec fn sp_value_list(s: Seq<char>, i: int) -> Option<(Seq<SqlValueV>, int)> {
    match sp_value(s, i) {
        Some((v, j)) => {
            let rest = sp_value_list_rest(s, j);
            Some((seq![v] + rest.0, rest.1))
        },
        None => None,
    }
}

// ---------------------------------------------------------------------------
// Assignments (UPDATE ... SET)
// ---------------------------------------------------------------------------

/// One `column = value` assignment, wrapped in optional whitespace.
pub open spec fn sp_assignment(s: Seq<char>, i: int) -> Option<((Seq<char>, SqlValueV), int)> {
    let i1 = sp_ws(s, i);
    match sp_identifier(s, i1) {
        Some((name, j)) => {
            let j1 = sp_ws(s, j);
            match sp_lit(s, j1, "="@) {
                Some(k) => {
                    let k1 = sp_ws(s, k);
                    match sp_value(s, k1) {
                        Some((v, m)) => Some(((name, v), sp_ws(s, m))),
                        None => None,
                    }
                },
                None => None,
            }
        },
        None => None,
    }
}

/// Further assignments after the first.
pub open spec fn sp_assign_list_rest(s: Seq<char>, i: int) -> (Seq<(Seq<char>, SqlValueV)>, int)
    decreases s.len() - i,
{
    match sp_lit(s, i, ","@) {
        Some(j) => {
            let j1 = sp_ws(s, j);
            match sp_assignment(s, j1) {
                Some((a, k)) => {
                    if i < k && k <= s.len() {
                        let rest = sp_assign_list_rest(s, k);
                        (seq![a] + rest.0, rest.1)
                    } else {
                        (Seq::empty(), i)
                    }
                },
                None => (Seq::empty(), i),
            }
        },
        None => (Seq::empty(), i),
    }
}

/// One or more assignments separated by commas.
pub open spec fn sp_assign_list(s: Seq<char>, i: int) -> Option<(Seq<(Seq<char>, SqlValueV)>, int)> {
    match sp_assignment(s, i) {
        Some((a, j)) => {
            let rest = sp_assign_list_rest(s, j);
            Some((seq![a] + rest.0, rest.1))
        },
        None => None,
    }
}

// ---------------------------------------------------------------------------
// Column definitions (CREATE TABLE)
// ---------------------------------------------------------------------------

/// The parenthesized length of a `VARCHAR(n)` type: the digits are
/// required but their value is not retained.
pub open spec fn sp_varchar(s: Seq<char>, i: int) -> Option<int> {
    match sp_lit(s, i, "VARCHAR"@) {
        Some(j) => {
            let j1 = sp_ws(s, j);
            match sp_lit(s, j1, "("@) {
                Some(k) => {
                    let k1 = sp_ws(s, k);
                    let d = sp_digits_end(s, k1);
                    if d > k1 {
                        let d1 = sp_ws(s, d);
                        sp_lit(s, d1, ")"@)
                    } else {
                        None
                    }
                },
                None => None,
            }
        },
        None => None,
    }
}

/// A column data type.  Ordered choice over the type names; `INT` stands
/// before `INTEGER`, exactly as the grammar orders its alternatives.
pub open spec fn sp_data_type(s: Seq<char>, i: int) -> Option<(DataType, int)> {
    match sp_lit(s, i, "INT"@) {
        Some(j) => Some((DataType::Int, j)),
        None => match sp_lit(s, i, "INTEGER"@) {
            Some(j) => Some((DataType::Int, j)),
            None => match sp_lit(s, i, "FLOAT"@) {
                Some(j) => Some((DataType::Float, j)),
                None => match sp_lit(s, i, "DOUBLE"@) {
                    Some(j) => Some((DataType::Float, j)),
                    None => match sp_varchar(s, i) {
                        Some(j) => Some((DataType::String, j)),
                        None => match sp_lit(s, i, "TEXT"@) {
                            Some(j) => Some((DataType::String, j)),
                            None => match sp_lit(s, i, "BOOLEAN"@) {
                                Some(j) => Some((DataType::Bool, j)),
                                None => match sp_lit(s, i, "BLOB"@) {
                                    Some(j) => Some((DataType::Blob, j)),
                                    None => match sp_lit(s, i, "TIMESTAMP"@) {
                                        Some(j) => Some((DataType::Timestamp, j)),
                                        None => None,
                                    },
                                },
                            },
                        },
                    },
                },
            },
        },
    }
}

/// A nullability modifier: `NOT NULL` gives `false`, bare `NULL` gives
/// `true`.  Both begin with required whitespace.
pub open spec fn sp_nullable(s: Seq<char>, i: int) -> Option<(bool, int)> {
    match sp_ws1(s, i) {
        Some(i1) => {
            let notnull = match sp_lit(s, i1, "NOT"@) {
                Some(j) => match sp_ws1(s, j) {
                    Some(j1) => sp_lit(s, j1, "NULL"@),
                    None => None,
                },
                None => None,
            };
            match notnull {
                Some(k) => Some((false, k)),
                None => match sp_lit(s, i1, "NULL"@) {
                    Some(k) => Some((true, k)),
                    None => None,
                },
            }
        },
        None => None,
    }
}

/// The `PRIMARY KEY` modifier.
pub open spec fn sp_primary_key(s: Seq<char>, i: int) -> Option<int> {
    match sp_ws1(s, i) {
        Some(i1) => match sp_lit(s, i1, "PRIMARY"@) {
            Some(j) => match sp_ws1(s, j) {
                Some(j1) => sp_lit(s, j1, "KEY"@),
                None => None,
            },
            None => None,
        },
        None => None,
    }
}

/// One column definition: name, data type, optional nullability modifier
/// (defaulting to nullable), optional `PRIMARY KEY`.
pub open spec fn sp_column_def(s: Seq<char>, i: int) -> Option<(ColumnDefV, int)> {
    let i1 = sp_ws(s, i);
    match sp_identifier(s, i1) {
        Some((name, j)) => match sp_ws1(s, j) {
            Some(j1) => match sp_data_type(s, j1) {
                Some((dt, k)) => {
                    let nl = match sp_nullable(s, k) {
                        Some((b, p)) => (b, p),
                        None => (true, k),
                    };
                    let pk = match sp_primary_key(s, nl.1) {
                        Some(p) => (true, p),
                        None => (false, nl.1),
                    };
                    Some(
                        (
                            ColumnDefV {
                                name,
                                data_type: dt,
                                nullable: nl.0,
                                primary_key: pk.0,
                            },
                            sp_ws(s, pk.1),
                        ),
                    )
                },
                None => None,
            },
            None => None,
        },
        None => None,
    }
}

/// Further column definitions after the first.
pub open spec fn sp_coldef_list_rest(s: Seq<char>, i: int) -> (Seq<ColumnDefV>, int)
    decreases s.len() - i,
{
    match sp_lit(s, i, ","@) {
        Some(j) => {
            let j1 = sp_ws(s, j);
            match sp_column_def(s, j1) {
                Some((c, k)) => {
                    if i < k && k <= s.len() {
                        let rest = sp_coldef_list_rest(s, k);
                        (seq![c] + rest.0, rest.1)
                    } else {
                        (Seq::empty(), i)
                    }
                },
                None => (Seq::empty(), i),
            }
        },
        None => (Seq::empty(), i),
    }
}

/// One or more column definitions separated by commas.
pub open spec fn sp_coldef_list(s: Seq<char>, i: int) -> Option<(Seq<ColumnDefV>, int)> {
    match sp_column_def(s, i) {
        Some((c, j)) => {
            let rest = sp_coldef_list_rest(s, j);
            Some((seq![c] + rest.0, rest.1))
        },
        None => None,
    }
}

// ---------------------------------------------------------------------------
// Statements
// ---------------------------------------------------------------------------

/// The optional statement tail: optional whitespace, an optional
/// semicolon, then optional whitespace.  Never fails.
pub open spec fn sp_stmt_tail(s: Seq<char>, i: int) -> int {
    let g = sp_ws(s, i);
    match sp_lit(s, g, ";"@) {
        Some(h) => sp_ws(s, h),
        None => g,
    }
}

/// A `SELECT` statement.
pub open spec fn sp_select(s: Seq<char>, i: int) -> Option<(SqlStatementV, int)> {
    let i1 = sp_ws(s, i);
    match sp_lit(s, i1, "SELECT"@) {
        Some(a) => match sp_ws1(s, a) {
            Some(a1) => match sp_column_list(s, a1) {
                Some((cols, b)) => match sp_ws1(s, b) {
                    Some(b1) => match sp_lit(s, b1, "FROM"@) {
                        Some(c) => match sp_ws1(s, c) {
                            Some(c1) => match sp_identifier(s, c1) {
                                Some((table, d)) => {
                                    let wc = match sp_where(s, d) {
                                        Some((w, p)) => (Some(w), p),
                                        None => (None, d),
                                    };
                                    let lim = match sp_limit(s, wc.1) {
                                        Some((n, p)) => (Some(n), p),
                                        None => (None, wc.1),
                                    };
                                    Some(
                                        (
                                            SqlStatementV::Select {
                                                columns: cols,
                                                table,
                                                where_clause: wc.0,
                                                limit: lim.0,
                                            },
                                            sp_stmt_tail(s, lim.1),
                                        ),
                                    )
                                },
                                None => None,
                            },
                            None => None,
                        },
                        None => None,
                    },
                    None => None,
                },
                None => None,
            },
            None => None,
        },
        None => None,
    }
}

/// An `INSERT` statement.
pub open spec fn sp_insert(s: Seq<char>, i: int) -> Option<(SqlStatementV, int)> {
    let i1 = sp_ws(s, i);
    match sp_lit(s, i1, "INSERT"@) {
        Some(a) => match sp_ws1(s, a) {
            Some(a1) => match sp_lit(s, a1, "INTO"@) {
                Some(b) => match sp_ws1(s, b) {
                    Some(b1) => match sp_identifier(s, b1) {
                        Some((table, c)) => {
                            let c1 = sp_ws(s, c);
                            match sp_lit(s, c1, "("@) {
                                Some(d) => {
                                    let d1 = sp_ws(s, d);
                                    match sp_ident_list(s, d1) {
                                        Some((cols, e)) => {
                                            let e1 = sp_ws(s, e);
                                            match sp_lit(s, e1, ")"@) {
                                                Some(f) => {
                                                    let f1 = sp_ws(s, f);
                                                    match sp_lit(s, f1, "VALUES"@) {
                                                        Some(g) => {
                                                            let g1 = sp_ws(s, g);
                                                            match sp_lit(s, g1, "("@) {
                                                                Some(h) => {
                                                                    let h1 = sp_ws(s, h);
                                                                    match sp_value_list(s, h1) {
                                                                        Some((vals, p)) => {
                                                                            let p1 = sp_ws(s, p);
                                                                            match sp_lit(
                                                                                s,
                                                                                p1,
                                                                                ")"@,
                                                                            ) {
                                                                                Some(q) => Some(
                                                                                    (
                                                                                        SqlStatementV::Insert {
                                                                                            table,
                                                                                            columns: cols,
                                                                                            values: vals,
                                                                                        },
                                                                                        sp_stmt_tail(
                                                                                            s,
                                                                                            q,
                                                                                        ),
                                                                                    ),
                                                                                ),
                                                                                None => None,
                                                                            }
                                                                        },
                                                                        None => None,
                                                                    }
                                                                },
                                                                None => None,
                                                            }
                                                        },
                                                        None => None,
                                                    }
                                                },
                                                None => None,
                                            }
                                        },
                                        None => None,
                                    }
                                },
                                None => None,
                            }
                        },
                        None => None,
                    },
                    None => None,
                },
                None => None,
            },
            None => None,
        },
        None => None,
    }
}

/// An `UPDATE` statement.
pub open spec fn sp_update(s: Seq<char>, i: int) -> Option<(SqlStatementV, int)> {
    let i1 = sp_ws(s, i);
    match sp_lit(s, i1, "UPDATE"@) {
        Some(a) => match sp_ws1(s, a) {
            Some(a1) => match sp_identifier(s, a1) {
                Some((table, b)) => match sp_ws1(s, b) {
                    Some(b1) => match sp_lit(s, b1, "SET"@) {
                        Some(c) => match sp_ws1(s, c) {
                            Some(c1) => match sp_assign_list(s, c1) {
                                Some((assigns, d)) => {
                                    let wc = match sp_where(s, d) {
                                        Some((w, p)) => (Some(w), p),
                                        None => (None, d),
                                    };
                                    Some(
                                        (
                                            SqlStatementV::Update {
                                                table,
                                                assignments: assigns,
                                                where_clause: wc.0,
                                            },
                                            sp_stmt_tail(s, wc.1),
                                        ),
                                    )
                                },
                                None => None,
                            },
                            None => None,
                        },
                        None => None,
                    },
                    None => None,
                },
                None => None,
            },
            None => None,
        },
        None => None,
    }
}

/// A `DELETE` statement.
pub open spec fn sp_delete(s: Seq<char>, i: int) -> Option<(SqlStatementV, int)> {
    let i1 = sp_ws(s, i);
    match sp_lit(s, i1, "DELETE"@) {
        Some(a) => match sp_ws1(s, a) {
            Some(a1) => match sp_lit(s, a1, "FROM"@) {
                Some(b) => match sp_ws1(s, b) {
                    Some(b1) => match sp_identifier(s, b1) {
                        Some((table, c)) => {
                            let wc = match sp_where(s, c) {
                                Some((w, p)) => (Some(w), p),
                                None => (None, c),
                            };
                            Some(
                                (
                                    SqlStatementV::Delete { table, where_clause: wc.0 },
                                    sp_stmt_tail(s, wc.1),
                                ),
                            )
                        },
                        None => None,
                    },
                    None => None,
                },
                None => None,
            },
            None => None,
        },
        None => None,
    }
}

/// A `CREATE TABLE` statement.
pub open spec fn sp_create_table(s: Seq<char>, i: int) -> Option<(SqlStatementV, int)> {
    let i1 = sp_ws(s, i);
    match sp_lit(s, i1, "CREATE"@) {
        Some(a) => match sp_ws1(s, a) {
            Some(a1) => match sp_lit(s, a1, "TABLE"@) {
                Some(b) => match sp_ws1(s, b) {
                    Some(b1) => match sp_identifier(s, b1) {
                        Some((name, c)) => {
                            let c1 = sp_ws(s, c);
                            match sp_lit(s, c1, "("@) {
                                Some(d) => {
                                    let d1 = sp_ws(s, d);
                                    match sp_coldef_list(s, d1) {
                                        Some((cols, e)) => {
                                            let e1 = sp_ws(s, e);
                                            match sp_lit(s, e1, ")"@) {
                                                Some(f) => Some(
                                                    (
                                                        SqlStatementV::CreateTable {
                                                            name,
                                                            columns: cols,
                                                        },
                                                        sp_stmt_tail(s, f),
                                                    ),
                                                ),
                                                None => None,
                                            }
                                        },
                                        None => None,
                                    }
                                },
                                None => None,
                            }
                        },
                        None => None,
                    },
                    None => None,
                },
                None => None,
            },
            None => None,
        },
        None => None,
    }
}

/// The statement dispatch: the five statement forms tried in fixed order.
/// The first form whose rule succeeds wins, whether or not it reaches the
/// end of the input; later forms are never attempted after that.
pub open spec fn sp_dispatch(s: Seq<char>) -> Option<(SqlStatementV, int)> {
    match sp_select(s, 0) {
        Some(r) => Some(r),
        None => match sp_insert(s, 0) {
            Some(r) => Some(r),
            None => match sp_update(s, 0) {
                Some(r) => Some(r),
                None => match sp_delete(s, 0) {
                    Some(r) => Some(r),
                    None => sp_create_table(s, 0),
                },
            },
        },
    }
}

/// The whole grammar: the chosen statement must consume the entire input,
/// otherwise the parse fails.
pub open spec fn sp_statement(s: Seq<char>) -> Option<SqlStatementV> {
    match sp_dispatch(s) {
        Some((st, j)) => if j == s.len() {
            Some(st)
        } else {
            None
        },
        None => None,
    }
}

// ---------------------------------------------------------------------------
// Bounds of the scanning primitives
// ---------------------------------------------------------------------------

/// Whitespace skipping never moves backwards nor past the end.
pub proof fn lemma_sp_ws_bounds(s: Seq<char>, i: int)
    requires
        0 <= i <= s.len(),
    ensures
        i <= sp_ws(s, i) <= s.len(),
    decreases s.len() - i,
{
    if i < s.len() && is_ws(s[i]) {
        lemma_sp_ws_bounds(s, i + 1);
    }
}

/// The identifier-character scan never moves backwards nor past the end.
pub proof fn lemma_sp_ident_end_bounds(s: Seq<char>, i: int)
    requires
        0 <= i <= s.len(),
    ensures
        i <= sp_ident_end(s, i) <= s.len(),
    decreases s.len() - i,
{
    if i < s.len() && is_ident_char(s[i]) {
        lemma_sp_ident_end_bounds(s, i + 1);
    }
}

/// The digit scan never moves backwards nor past the end.
pub proof fn lemma_sp_digits_end_bounds(s: Seq<char>, i: int)
    requires
        0 <= i <= s.len(),
    ensures
        i <= sp_digits_end(s, i) <= s.len(),
    decreases s.len() - i,
{
    if i < s.len() && is_digit(s[i]) {
        lemma_sp_digits_end_bounds(s, i + 1);
    }
}

/// Every character strictly before the end of a digit scan is a digit.
pub proof fn lemma_sp_digits_end_digits(s: Seq<char>, i: int)
    requires
        0 <= i <= s.len(),
    ensures
        forall|t: int| i <= t < sp_digits_end(s, i) ==> is_digit(#[trigger] s[t]),
    decreases s.len() - i,
{
    if i < s.len() && is_digit(s[i]) {
        lemma_sp_digits_end_digits(s, i + 1);
    }
}

/// A found character lies between the start of the search and the end of
/// the input.
pub proof fn lemma_sp_find_bounds(s: Seq<char>, i: int, c: char)
    requires
        0 <= i <= s.len(),
        sp_find(s, i, c) is Some,
    ensures
        i <= sp_find(s, i, c)->Some_0 < s.len(),
    decreases s.len() - i,
{
    if i < s.len() && s[i] != c {
        lemma_sp_find_bounds(s, i + 1, c);
    }
}

} // verus!

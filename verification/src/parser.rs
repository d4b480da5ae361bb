//! The executable SQL parser.
//!
//! Each function here implements one grammar rule and is verified to
//! return exactly what the corresponding spec function in [`crate::grammar`]
//! denotes.  Rules share an error cursor `err`: whenever a rule fails, it
//! raises the cursor to the failure position if that position is further
//! right, so that after a failed parse the cursor holds the furthest
//! position at which the grammar got stuck.

use vstd::prelude::*;
use vstd::string::StrSliceExecFns;

use std::collections::HashMap;

use crate::ast::ColumnDef;
use crate::ast::ComparisonOp;
use crate::ast::Condition;
use crate::ast::DataType;
use crate::ast::ParseError;
use crate::ast::SqlStatement;
use crate::ast::SqlStatementV;
use crate::ast::SqlValue;
use crate::ast::WhereClause;
use crate::grammar::digits_val;
use crate::grammar::is_digit;
use crate::grammar::is_ident_char;
use crate::grammar::is_keyword;
use crate::grammar::is_letter;
use crate::grammar::is_ws;
use crate::grammar::lemma_sp_digits_end_digits;
use crate::grammar::lemma_sp_find_bounds;
use crate::grammar::sp_and_condition;
use crate::grammar::sp_assign_list;
use crate::grammar::sp_assign_list_rest;
use crate::grammar::sp_assignment;
use crate::grammar::sp_coldef_list;
use crate::grammar::sp_coldef_list_rest;
use crate::grammar::sp_column_def;
use crate::grammar::sp_column_list;
use crate::grammar::sp_comparison;
use crate::grammar::sp_comparison_op;
use crate::grammar::sp_condition;
use crate::grammar::sp_create_table;
use crate::grammar::sp_data_type;
use crate::grammar::sp_delete;
use crate::grammar::sp_digits_end;
use crate::grammar::sp_find;
use crate::grammar::sp_float;
use crate::grammar::sp_ident_end;
use crate::grammar::sp_ident_list;
use crate::grammar::sp_ident_list_rest;
use crate::grammar::sp_identifier;
use crate::grammar::sp_insert;
use crate::grammar::sp_int_lexeme;
use crate::grammar::sp_integer;
use crate::grammar::sp_limit;
use crate::grammar::sp_lit;
use crate::grammar::sp_nullable;
use crate::grammar::sp_primary_key;
use crate::grammar::sp_select;
use crate::grammar::sp_statement;
use crate::grammar::sp_stmt_tail;
use crate::grammar::sp_string_lit;
use crate::grammar::sp_update;
use crate::grammar::sp_value;
use crate::grammar::sp_value_list;
use crate::grammar::sp_value_list_rest;
use crate::grammar::sp_varchar;
use crate::grammar::sp_where;
use crate::grammar::sp_ws1;
use crate::grammar::sp_ws;

verus! {

// ---------------------------------------------------------------------------
// Error cursor
// ---------------------------------------------------------------------------

/// Raise the error cursor to `p` if `p` lies further right.
fn note_err(err: &mut usize, p: usize)
    ensures
        *final(err) == if p > *old(err) {
            p
        } else {
            *old(err)
        },
{
    if p > *err {
        *err = p;
    }
}

// ---------------------------------------------------------------------------
// Character classes
// ---------------------------------------------------------------------------

fn ws_char(c: char) -> (r: bool)
    ensures
        r == is_ws(c),
{
    c == ' ' || c == '\t' || c == '\r' || c == '\n'
}

fn digit_char(c: char) -> (r: bool)
    ensures
        r == is_digit(c),
{
    let u = c as u32;
    48 <= u && u <= 57
}

fn letter_char(c: char) -> (r: bool)
    ensures
        r == is_letter(c),
{
    let u = c as u32;
    (65 <= u && u <= 90) || (97 <= u && u <= 122)
}

fn ident_char(c: char) -> (r: bool)
    ensures
        r == is_ident_char(c),
{
    letter_char(c) || digit_char(c) || c == '_'
}

// ---------------------------------------------------------------------------
// Scanning primitives
// ---------------------------------------------------------------------------

/// Exact equality of two pieces of text.
pub(crate) fn eq_str(a: &str, b: &str) -> (r: bool)
    ensures
        r == (a@ == b@),
{
    let sa = a.to_owned();
    let sb = b.to_owned();
    sa == sb
}

/// Skip whitespace starting at `i`.
fn skip_ws(s: &str, i: usize) -> (j: usize)
    requires
        i <= s@.len(),
    ensures
        j as int == sp_ws(s@, i as int),
        i <= j <= s@.len(),
{
    let n = s.unicode_len();
    let mut k = i;
    while k < n && ws_char(s.get_char(k))
        invariant
            i <= k <= n,
            n == s@.len(),
            sp_ws(s@, i as int) == sp_ws(s@, k as int),
        decreases n - k,
    {
        k = k + 1;
    }
    k
}

/// Require at least one whitespace character, then skip the run.
fn skip_ws1(s: &str, i: usize, err: &mut usize) -> (r: Option<usize>)
    requires
        i <= s@.len(),
        *old(err) <= s@.len(),
    ensures
        *old(err) <= *final(err) <= s@.len(),
        match r {
            Some(j) => sp_ws1(s@, i as int) == Some(j as int) && i <= j <= s@.len(),
            None => sp_ws1(s@, i as int) is None,
        },
{
    let n = s.unicode_len();
    if i < n && ws_char(s.get_char(i)) {
        Some(skip_ws(s, i))
    } else {
        note_err(err, i);
        None
    }
}

/// The end of the maximal identifier-character run starting at `i`.
fn scan_ident_end(s: &str, i: usize) -> (j: usize)
    requires
        i <= s@.len(),
    ensures
        j as int == sp_ident_end(s@, i as int),
        i <= j <= s@.len(),
{
    let n = s.unicode_len();
    let mut k = i;
    while k < n && ident_char(s.get_char(k))
        invariant
            i <= k <= n,
            n == s@.len(),
            sp_ident_end(s@, i as int) == sp_ident_end(s@, k as int),
        decreases n - k,
    {
        k = k + 1;
    }
    k
}

/// The end of the maximal digit run starting at `i`.
fn scan_digits_end(s: &str, i: usize) -> (j: usize)
    requires
        i <= s@.len(),
    ensures
        j as int == sp_digits_end(s@, i as int),
        i <= j <= s@.len(),
{
    let n = s.unicode_len();
    let mut k = i;
    while k < n && digit_char(s.get_char(k))
        invariant
            i <= k <= n,
            n == s@.len(),
            sp_digits_end(s@, i as int) == sp_digits_end(s@, k as int),
        decreases n - k,
    {
        k = k + 1;
    }
    k
}

/// The position of the first occurrence of `c` at or after `i`, if any.
fn find_char(s: &str, i: usize, c: char) -> (r: Option<usize>)
    requires
        i <= s@.len(),
    ensures
        match r {
            Some(j) => sp_find(s@, i as int, c) == Some(j as int) && i <= j < s@.len(),
            None => sp_find(s@, i as int, c) is None,
        },
{
    let n = s.unicode_len();
    let mut k = i;
    while k < n
        invariant
            i <= k <= n,
            n == s@.len(),
            sp_find(s@, i as int, c) == sp_find(s@, k as int, c),
        decreases n - k,
    {
        if s.get_char(k) == c {
            return Some(k);
        }
        k = k + 1;
    }
    None
}

/// Match the exact text `w` at position `i`; on failure the error cursor
/// moves up to `i`.
fn lit(s: &str, i: usize, w: &str, err: &mut usize) -> (r: Option<usize>)
    requires
        i <= s@.len(),
        *old(err) <= s@.len(),
    ensures
        *old(err) <= *final(err) <= s@.len(),
        match r {
            Some(j) => sp_lit(s@, i as int, w@) == Some(j as int) && i <= j <= s@.len(),
            None => sp_lit(s@, i as int, w@) is None,
        },
{
    let n = s.unicode_len();
    let m = w.unicode_len();
    if m <= n - i {
        let sub = s.substring_char(i, i + m);
        if eq_str(sub, w) {
            return Some(i + m);
        }
    }
    note_err(err, i);
    None
}

// ---------------------------------------------------------------------------
// Identifiers
// ---------------------------------------------------------------------------

/// Whether `w` is exactly one of the reserved keywords.
fn keyword_check(w: &str) -> (r: bool)
    ensures
        r == is_keyword(w@),
{
    eq_str(w, "SELECT") || eq_str(w, "FROM") || eq_str(w, "WHERE") || eq_str(w, "INSERT") || eq_str(
        w,
        "INTO",
    ) || eq_str(w, "VALUES") || eq_str(w, "UPDATE") || eq_str(w, "SET") || eq_str(w, "DELETE")
        || eq_str(w, "CREATE") || eq_str(w, "TABLE") || eq_str(w, "AND") || eq_str(w, "OR")
        || eq_str(w, "NOT") || eq_str(w, "NULL") || eq_str(w, "PRIMARY") || eq_str(w, "KEY")
        || eq_str(w, "INT") || eq_str(w, "INTEGER") || eq_str(w, "FLOAT") || eq_str(w, "VARCHAR")
        || eq_str(w, "TEXT") || eq_str(w, "BOOLEAN") || eq_str(w, "BLOB") || eq_str(w, "TIMESTAMP")
        || eq_str(w, "LIMIT")
}

/// Parse an identifier: an unquoted keyword-free span or a backtick-quoted
/// span.
fn parse_identifier(s: &str, i: usize, err: &mut usize) -> (r: Option<(String, usize)>)
    requires
        i <= s@.len(),
        *old(err) <= s@.len(),
    ensures
        *old(err) <= *final(err) <= s@.len(),
        match r {
            Some(p) => sp_identifier(s@, i as int) == Some((p.0@, p.1 as int)) && i <= p.1
                <= s@.len(),
            None => sp_identifier(s@, i as int) is None,
        },
{
    let n = s.unicode_len();
    if i < n {
        let c = s.get_char(i);
        if letter_char(c) {
            let j = scan_ident_end(s, i + 1);
            let w = s.substring_char(i, j);
            if keyword_check(w) {
                note_err(err, i);
                None
            } else {
                Some((w.to_owned(), j))
            }
        } else if c == '`' {
            match find_char(s, i + 1, '`') {
                Some(j) => {
                    proof {
                        lemma_sp_find_bounds(s@, i + 1, '`');
                    }
                    let body = s.substring_char(i + 1, j);
                    Some((body.to_owned(), j + 1))
                },
                None => {
                    note_err(err, i);
                    None
                },
            }
        } else {
            note_err(err, i);
            None
        }
    } else {
        note_err(err, i);
        None
    }
}

// ---------------------------------------------------------------------------
// Literals
// ---------------------------------------------------------------------------

/// The largest magnitude a parsed integer may reach: one more than
/// `i64::MAX`, which is exactly the magnitude of `i64::MIN`.
const INT_MAGNITUDE_BOUND: u64 = 9223372036854775808;

/// The digit accumulator may take one more digit without passing
/// [`INT_MAGNITUDE_BOUND`] only below this cutoff, or at it when the digit
/// is at most 8.
const INT_ACC_CUTOFF: u64 = 922337203685477580;

/// Parse an integer literal into a 64-bit signed value.  The rule fails,
/// rather than truncating, when the written value does not fit.
fn parse_integer(s: &str, i: usize, err: &mut usize) -> (r: Option<(i64, usize)>)
    requires
        i <= s@.len(),
        *old(err) <= s@.len(),
    ensures
        *old(err) <= *final(err) <= s@.len(),
        match r {
            Some(p) => sp_integer(s@, i as int) == Some((p.0 as int, p.1 as int)) && i <= p.1
                <= s@.len(),
            None => sp_integer(s@, i as int) is None,
        },
{
    let n = s.unicode_len();
    let neg = i < n && s.get_char(i) == '-';
    let dstart = if neg {
        i + 1
    } else {
        i
    };
    let j = scan_digits_end(s, dstart);
    if j == dstart {
        note_err(err, i);
        return None;
    }
    proof {
        lemma_sp_digits_end_digits(s@, dstart as int);
    }
    let mut acc: u64 = 0;
    let mut too_big = false;
    let mut k = dstart;
    while k < j
        invariant
            dstart <= k <= j <= s@.len(),
            j as int == sp_digits_end(s@, dstart as int),
            forall|t: int| dstart <= t < j ==> is_digit(#[trigger] s@[t]),
            !too_big ==> acc as int == digits_val(s@.subrange(dstart as int, k as int)) && acc
                <= INT_MAGNITUDE_BOUND,
            too_big ==> digits_val(s@.subrange(dstart as int, k as int))
                > INT_MAGNITUDE_BOUND as int,
        decreases j - k,
    {
        let c = s.get_char(k);
        let d = (c as u32 - 48) as u64;
        proof {
            assert(s@.subrange(dstart as int, k + 1 as int).drop_last() =~= s@.subrange(
                dstart as int,
                k as int,
            ));
            assert(s@.subrange(dstart as int, k + 1 as int).last() == s@[k as int]);
        }
        if too_big {
        } else if acc > INT_ACC_CUTOFF || (acc == INT_ACC_CUTOFF && d > 8) {
            too_big = true;
        } else {
            acc = acc * 10 + d;
        }
        k = k + 1;
    }
    if too_big {
        note_err(err, i);
        return None;
    }
    if neg {
        let v = if acc == INT_MAGNITUDE_BOUND {
            i64::MIN
        } else {
            -(acc as i64)
        };
        Some((v, j))
    } else {
        if acc == INT_MAGNITUDE_BOUND {
            note_err(err, i);
            None
        } else {
            Some((acc as i64, j))
        }
    }
}

/// Parse a float literal, keeping its exact source text.
fn parse_float(s: &str, i: usize, err: &mut usize) -> (r: Option<(String, usize)>)
    requires
        i <= s@.len(),
        *old(err) <= s@.len(),
    ensures
        *old(err) <= *final(err) <= s@.len(),
        match r {
            Some(p) => sp_float(s@, i as int) == Some((p.0@, p.1 as int)) && i <= p.1 <= s@.len(),
            None => sp_float(s@, i as int) is None,
        },
{
    let n = s.unicode_len();
    let neg = i < n && s.get_char(i) == '-';
    let dstart = if neg {
        i + 1
    } else {
        i
    };
    let j = scan_digits_end(s, dstart);
    if j == dstart {
        note_err(err, i);
        return None;
    }
    if j < n && s.get_char(j) == '.' {
        let k = scan_digits_end(s, j + 1);
        let lex = s.substring_char(i, k);
        Some((lex.to_owned(), k))
    } else {
        note_err(err, i);
        None
    }
}

/// Parse a string literal: the text between a quote character and its
/// first matching partner, taken verbatim.
fn parse_string_lit(s: &str, i: usize, err: &mut usize) -> (r: Option<(String, usize)>)
    requires
        i <= s@.len(),
        *old(err) <= s@.len(),
    ensures
        *old(err) <= *final(err) <= s@.len(),
        match r {
            Some(p) => sp_string_lit(s@, i as int) == Some((p.0@, p.1 as int)) && i <= p.1
                <= s@.len(),
            None => sp_string_lit(s@, i as int) is None,
        },
{
    let n = s.unicode_len();
    if i < n {
        let q = s.get_char(i);
        if q == '\'' || q == '"' {
            return match find_char(s, i + 1, q) {
                Some(j) => {
                    proof {
                        lemma_sp_find_bounds(s@, i + 1, q);
                    }
                    let body = s.substring_char(i + 1, j);
                    Some((body.to_owned(), j + 1))
                },
                None => {
                    note_err(err, i);
                    None
                },
            };
        }
    }
    note_err(err, i);
    None
}

/// Parse a value: string, float, integer, boolean, NULL, or a parameter
/// placeholder, in that order of preference.
fn parse_value(s: &str, i: usize, err: &mut usize) -> (r: Option<(SqlValue, usize)>)
    requires
        i <= s@.len(),
        *old(err) <= s@.len(),
    ensures
        *old(err) <= *final(err) <= s@.len(),
        match r {
            Some(p) => sp_value(s@, i as int) == Some((p.0@, p.1 as int)) && i <= p.1 <= s@.len(),
            None => sp_value(s@, i as int) is None,
        },
{
    match parse_string_lit(s, i, err) {
        Some(p) => {
            return Some((SqlValue::String(p.0), p.1));
        },
        None => {},
    }
    match parse_float(s, i, err) {
        Some(p) => {
            return Some((SqlValue::Float(p.0), p.1));
        },
        None => {},
    }
    match parse_integer(s, i, err) {
        Some(p) => {
            return Some((SqlValue::Integer(p.0), p.1));
        },
        None => {},
    }
    match lit(s, i, "TRUE", err) {
        Some(j) => {
            return Some((SqlValue::Boolean(true), j));
        },
        None => {},
    }
    match lit(s, i, "FALSE", err) {
        Some(j) => {
            return Some((SqlValue::Boolean(false), j));
        },
        None => {},
    }
    match lit(s, i, "NULL", err) {
        Some(j) => {
            return Some((SqlValue::Null, j));
        },
        None => {},
    }
    let n = s.unicode_len();
    if i < n {
        let c = s.get_char(i);
        if c == ':' {
            return match parse_identifier(s, i + 1, err) {
                Some(p) => Some((SqlValue::Parameter(p.0), p.1)),
                None => None,
            };
        } else if c == '?' {
            return Some((SqlValue::Parameter("?".to_owned()), i + 1));
        }
    }
    note_err(err, i);
    None
}

// ---------------------------------------------------------------------------
// Conditions
// ---------------------------------------------------------------------------

/// Parse a comparison operator, two-character forms first.
fn parse_comparison_op(s: &str, i: usize, err: &mut usize) -> (r: Option<(ComparisonOp, usize)>)
    requires
        i <= s@.len(),
        *old(err) <= s@.len(),
    ensures
        *old(err) <= *final(err) <= s@.len(),
        match r {
            Some(p) => sp_comparison_op(s@, i as int) == Some((p.0, p.1 as int)) && i <= p.1
                <= s@.len(),
            None => sp_comparison_op(s@, i as int) is None,
        },
{
    match lit(s, i, "=", err) {
        Some(j) => {
            return Some((ComparisonOp::Eq, j));
        },
        None => {},
    }
    match lit(s, i, "!=", err) {
        Some(j) => {
            return Some((ComparisonOp::NotEq, j));
        },
        None => {},
    }
    match lit(s, i, "<>", err) {
        Some(j) => {
            return Some((ComparisonOp::NotEq, j));
        },
        None => {},
    }
    match lit(s, i, "<=", err) {
        Some(j) => {
            return Some((ComparisonOp::LtEq, j));
        },
        None => {},
    }
    match lit(s, i, "<", err) {
        Some(j) => {
            return Some((ComparisonOp::Lt, j));
        },
        None => {},
    }
    match lit(s, i, ">=", err) {
        Some(j) => {
            return Some((ComparisonOp::GtEq, j));
        },
        None => {},
    }
    match lit(s, i, ">", err) {
        Some(j) => {
            return Some((ComparisonOp::Gt, j));
        },
        None => {},
    }
    match lit(s, i, "LIKE", err) {
        Some(j) => {
            return Some((ComparisonOp::Like, j));
        },
        None => {},
    }
    None
}

/// Parse one comparison leaf: identifier, operator, value.
fn parse_comparison(s: &str, i: usize, err: &mut usize) -> (r: Option<(Condition, usize)>)
    requires
        i <= s@.len(),
        *old(err) <= s@.len(),
    ensures
        *old(err) <= *final(err) <= s@.len(),
        match r {
            Some(p) => sp_comparison(s@, i as int) == Some((p.0@, p.1 as int)) && i <= p.1
                <= s@.len(),
            None => sp_comparison(s@, i as int) is None,
        },
{
    let i1 = skip_ws(s, i);
    match parse_identifier(s, i1, err) {
        Some(left) => {
            let j1 = skip_ws(s, left.1);
            match parse_comparison_op(s, j1, err) {
                Some(op) => {
                    let k1 = skip_ws(s, op.1);
                    match parse_value(s, k1, err) {
                        Some(right) => {
                            let end = skip_ws(s, right.1);
                            Some(
                                (
                                    Condition::Comparison {
                                        left: left.0,
                                        op: op.0,
                                        right: right.0,
                                    },
                                    end,
                                ),
                            )
                        },
                        None => None,
                    }
                },
                None => None,
            }
        },
        None => None,
    }
}

/// Parse an `AND`-chain of comparisons, grouping to the right.
fn parse_and_condition(s: &str, i: usize, err: &mut usize) -> (r: Option<(Condition, usize)>)
    requires
        i <= s@.len(),
        *old(err) <= s@.len(),
    ensures
        *old(err) <= *final(err) <= s@.len(),
        match r {
            Some(p) => sp_and_condition(s@, i as int) == Some((p.0@, p.1 as int)) && i <= p.1
                <= s@.len(),
            None => sp_and_condition(s@, i as int) is None,
        },
    decreases s@.len() - i,
{
    match parse_comparison(s, i, err) {
        Some(l) => {
            let j1 = skip_ws(s, l.1);
            match lit(s, j1, "AND", err) {
                Some(k) => {
                    let k1 = skip_ws(s, k);
                    if i < k1 {
                        match parse_and_condition(s, k1, err) {
                            Some(rr) => Some(
                                (Condition::And(Box::new(l.0), Box::new(rr.0)), rr.1),
                            ),
                            None => Some(l),
                        }
                    } else {
                        Some(l)
                    }
                },
                None => Some(l),
            }
        },
        None => None,
    }
}

/// Parse a full condition: `AND`-chains joined by `OR`, grouping to the
/// right.
fn parse_condition(s: &str, i: usize, err: &mut usize) -> (r: Option<(Condition, usize)>)
    requires
        i <= s@.len(),
        *old(err) <= s@.len(),
    ensures
        *old(err) <= *final(err) <= s@.len(),
        match r {
            Some(p) => sp_condition(s@, i as int) == Some((p.0@, p.1 as int)) && i <= p.1
                <= s@.len(),
            None => sp_condition(s@, i as int) is None,
        },
    decreases s@.len() - i,
{
    match parse_and_condition(s, i, err) {
        Some(l) => {
            let j1 = skip_ws(s, l.1);
            match lit(s, j1, "OR", err) {
                Some(k) => {
                    let k1 = skip_ws(s, k);
                    if i < k1 {
                        match parse_condition(s, k1, err) {
                            Some(rr) => Some(
                                (Condition::Or(Box::new(l.0), Box::new(rr.0)), rr.1),
                            ),
                            None => Some(l),
                        }
                    } else {
                        Some(l)
                    }
                },
                None => Some(l),
            }
        },
        None => None,
    }
}

/// Parse a `WHERE` clause: the keyword, required whitespace, then the
/// condition.  Whitespace before the keyword is optional, because the
/// preceding rule may already have consumed the separating run.
fn parse_where(s: &str, i: usize, err: &mut usize) -> (r: Option<(Condition, usize)>)
    requires
        i <= s@.len(),
        *old(err) <= s@.len(),
    ensures
        *old(err) <= *final(err) <= s@.len(),
        match r {
            Some(p) => sp_where(s@, i as int) == Some((p.0@, p.1 as int)) && i <= p.1 <= s@.len(),
            None => sp_where(s@, i as int) is None,
        },
{
    let i1 = skip_ws(s, i);
    match lit(s, i1, "WHERE", err) {
        Some(i2) => match skip_ws1(s, i2, err) {
            Some(i3) => parse_condition(s, i3, err),
            None => None,
        },
        None => None,
    }
}

/// Parse a `LIMIT` clause.  The rule fails, rather than truncating, when
/// the count does not fit the machine's word size.  As with
/// [`parse_where`], whitespace before the keyword is optional.
fn parse_limit(s: &str, i: usize, err: &mut usize) -> (r: Option<(usize, usize)>)
    requires
        i <= s@.len(),
        *old(err) <= s@.len(),
    ensures
        *old(err) <= *final(err) <= s@.len(),
        match r {
            Some(p) => sp_limit(s@, i as int) == Some((p.0 as int, p.1 as int)) && i <= p.1
                <= s@.len(),
            None => sp_limit(s@, i as int) is None,
        },
{
    let i1 = skip_ws(s, i);
    let i2 = match lit(s, i1, "LIMIT", err) {
        Some(i2) => i2,
        None => {
            return None;
        },
    };
    let i3 = match skip_ws1(s, i2, err) {
        Some(i3) => i3,
        None => {
            return None;
        },
    };
    let j = scan_digits_end(s, i3);
    if j == i3 {
        note_err(err, i3);
        return None;
    }
    proof {
        lemma_sp_digits_end_digits(s@, i3 as int);
    }
    let cutoff: usize = usize::MAX / 10;
    let rem: usize = usize::MAX % 10;
    let mut acc: usize = 0;
    let mut too_big = false;
    let mut k = i3;
    while k < j
        invariant
            i3 <= k <= j <= s@.len(),
            j as int == sp_digits_end(s@, i3 as int),
            cutoff == usize::MAX / 10,
            rem == usize::MAX % 10,
            forall|t: int| i3 <= t < j ==> is_digit(#[trigger] s@[t]),
            !too_big ==> acc as int == digits_val(s@.subrange(i3 as int, k as int)),
            too_big ==> digits_val(s@.subrange(i3 as int, k as int)) > usize::MAX as int,
        decreases j - k,
    {
        let c = s.get_char(k);
        let d = (c as u32 - 48) as usize;
        proof {
            assert(s@.subrange(i3 as int, k + 1 as int).drop_last() =~= s@.subrange(
                i3 as int,
                k as int,
            ));
            assert(s@.subrange(i3 as int, k + 1 as int).last() == s@[k as int]);
        }
        if too_big {
        } else if acc > cutoff || (acc == cutoff && d > rem) {
            too_big = true;
        } else {
            acc = acc * 10 + d;
        }
        k = k + 1;
    }
    if too_big {
        note_err(err, i3);
        None
    } else {
        Some((acc, j))
    }
}

// ---------------------------------------------------------------------------
// Comma-separated lists
// ---------------------------------------------------------------------------

/// Parse one or more comma-separated identifiers.
fn parse_ident_list(s: &str, i: usize, err: &mut usize) -> (r: Option<(Vec<String>, usize)>)
    requires
        i <= s@.len(),
        *old(err) <= s@.len(),
    ensures
        *old(err) <= *final(err) <= s@.len(),
        match r {
            Some(p) => sp_ident_list(s@, i as int) == Some((p.0.deep_view(), p.1 as int)) && i
                <= p.1 <= s@.len(),
            None => sp_ident_list(s@, i as int) is None,
        },
{
    let first = match parse_identifier(s, i, err) {
        Some(p) => p,
        None => {
            return None;
        },
    };
    let mut items: Vec<String> = Vec::new();
    let ghost w0 = first.0@;
    items.push(first.0);
    let mut pos: usize = first.1;
    proof {
        assert(items.deep_view() =~= seq![w0]);
    }
    let ghost target = sp_ident_list(s@, i as int);
    let ghost e0: usize = *err;
    loop
        invariant
            i <= pos <= s@.len(),
            e0 <= *err <= s@.len(),
            target == sp_ident_list(s@, i as int),
            ({
                let rest = sp_ident_list_rest(s@, pos as int);
                target == Some((items.deep_view() + rest.0, rest.1))
            }),
        ensures
            i <= pos <= s@.len(),
            e0 <= *err <= s@.len(),
            target == Some((items.deep_view(), pos as int)),
        decreases s@.len() - pos,
    {
        let c = match lit(s, pos, ",", err) {
            Some(c) => c,
            None => {
                proof {
                    assert(items.deep_view() + Seq::<Seq<char>>::empty() =~= items.deep_view());
                }
                break;
            },
        };
        let c1 = skip_ws(s, c);
        let nxt = match parse_identifier(s, c1, err) {
            Some(p) => p,
            None => {
                proof {
                    assert(items.deep_view() + Seq::<Seq<char>>::empty() =~= items.deep_view());
                }
                break;
            },
        };
        if pos < nxt.1 {
            let ghost dv0 = items.deep_view();
            let ghost wn = nxt.0@;
            items.push(nxt.0);
            proof {
                assert(items.deep_view() =~= dv0 + seq![wn]);
                let rest_new = sp_ident_list_rest(s@, nxt.1 as int);
                assert(dv0 + (seq![wn] + rest_new.0) =~= (dv0 + seq![wn]) + rest_new.0);
            }
            pos = nxt.1;
        } else {
            proof {
                assert(items.deep_view() + Seq::<Seq<char>>::empty() =~= items.deep_view());
            }
            break;
        }
    }
    Some((items, pos))
}

/// Parse the column list of a `SELECT`: `*` or an identifier list.
fn parse_column_list(s: &str, i: usize, err: &mut usize) -> (r: Option<(Vec<String>, usize)>)
    requires
        i <= s@.len(),
        *old(err) <= s@.len(),
    ensures
        *old(err) <= *final(err) <= s@.len(),
        match r {
            Some(p) => sp_column_list(s@, i as int) == Some((p.0.deep_view(), p.1 as int)) && i
                <= p.1 <= s@.len(),
            None => sp_column_list(s@, i as int) is None,
        },
{
    match lit(s, i, "*", err) {
        Some(j) => {
            let mut v: Vec<String> = Vec::new();
            v.push("*".to_owned());
            proof {
                assert(v.deep_view() =~= seq!["*"@]);
            }
            Some((v, j))
        },
        None => parse_ident_list(s, i, err),
    }
}

/// Parse one or more comma-separated values.
fn parse_value_list(s: &str, i: usize, err: &mut usize) -> (r: Option<(Vec<SqlValue>, usize)>)
    requires
        i <= s@.len(),
        *old(err) <= s@.len(),
    ensures
        *old(err) <= *final(err) <= s@.len(),
        match r {
            Some(p) => sp_value_list(s@, i as int) == Some((p.0.deep_view(), p.1 as int)) && i
                <= p.1 <= s@.len(),
            None => sp_value_list(s@, i as int) is None,
        },
{
    let first = match parse_value(s, i, err) {
        Some(p) => p,
        None => {
            return None;
        },
    };
    let mut items: Vec<SqlValue> = Vec::new();
    let ghost w0 = first.0@;
    items.push(first.0);
    let mut pos: usize = first.1;
    proof {
        assert(items.deep_view() =~= seq![w0]);
    }
    let ghost target = sp_value_list(s@, i as int);
    let ghost e0: usize = *err;
    loop
        invariant
            i <= pos <= s@.len(),
            e0 <= *err <= s@.len(),
            target == sp_value_list(s@, i as int),
            ({
                let rest = sp_value_list_rest(s@, pos as int);
                target == Some((items.deep_view() + rest.0, rest.1))
            }),
        ensures
            i <= pos <= s@.len(),
            e0 <= *err <= s@.len(),
            target == Some((items.deep_view(), pos as int)),
        decreases s@.len() - pos,
    {
        let c = match lit(s, pos, ",", err) {
            Some(c) => c,
            None => {
                proof {
                    assert(items.deep_view() + Seq::<crate::ast::SqlValueV>::empty()
                        =~= items.deep_view());
                }
                break;
            },
        };
        let c1 = skip_ws(s, c);
        let nxt = match parse_value(s, c1, err) {
            Some(p) => p,
            None => {
                proof {
                    assert(items.deep_view() + Seq::<crate::ast::SqlValueV>::empty()
                        =~= items.deep_view());
                }
                break;
            },
        };
        if pos < nxt.1 {
            let ghost dv0 = items.deep_view();
            let ghost wn = nxt.0@;
            items.push(nxt.0);
            proof {
                assert(items.deep_view() =~= dv0 + seq![wn]);
                let rest_new = sp_value_list_rest(s@, nxt.1 as int);
                assert(dv0 + (seq![wn] + rest_new.0) =~= (dv0 + seq![wn]) + rest_new.0);
            }
            pos = nxt.1;
        } else {
            proof {
                assert(items.deep_view() + Seq::<crate::ast::SqlValueV>::empty()
                    =~= items.deep_view());
            }
            break;
        }
    }
    Some((items, pos))
}

// ---------------------------------------------------------------------------
// Assignments (UPDATE ... SET)
// ---------------------------------------------------------------------------

/// Parse one `column = value` assignment.
fn parse_assignment(s: &str, i: usize, err: &mut usize) -> (r: Option<((String, SqlValue), usize)>)
    requires
        i <= s@.len(),
        *old(err) <= s@.len(),
    ensures
        *old(err) <= *final(err) <= s@.len(),
        match r {
            Some(p) => sp_assignment(s@, i as int) == Some(((p.0.0@, p.0.1@), p.1 as int)) && i
                <= p.1 <= s@.len(),
            None => sp_assignment(s@, i as int) is None,
        },
{
    let i1 = skip_ws(s, i);
    match parse_identifier(s, i1, err) {
        Some(name) => {
            let j1 = skip_ws(s, name.1);
            match lit(s, j1, "=", err) {
                Some(k) => {
                    let k1 = skip_ws(s, k);
                    match parse_value(s, k1, err) {
                        Some(v) => {
                            let end = skip_ws(s, v.1);
                            Some(((name.0, v.0), end))
                        },
                        None => None,
                    }
                },
                None => None,
            }
        },
        None => None,
    }
}

/// Parse one or more comma-separated assignments.
fn parse_assign_list(s: &str, i: usize, err: &mut usize) -> (r: Option<
    (Vec<(String, SqlValue)>, usize),
>)
    requires
        i <= s@.len(),
        *old(err) <= s@.len(),
    ensures
        *old(err) <= *final(err) <= s@.len(),
        match r {
            Some(p) => sp_assign_list(s@, i as int) == Some((p.0.deep_view(), p.1 as int)) && i
                <= p.1 <= s@.len(),
            None => sp_assign_list(s@, i as int) is None,
        },
{
    let first = match parse_assignment(s, i, err) {
        Some(p) => p,
        None => {
            return None;
        },
    };
    let mut items: Vec<(String, SqlValue)> = Vec::new();
    let ghost w0 = (first.0.0@, first.0.1@);
    items.push(first.0);
    let mut pos: usize = first.1;
    proof {
        assert(items.deep_view() =~= seq![w0]);
    }
    let ghost target = sp_assign_list(s@, i as int);
    let ghost e0: usize = *err;
    loop
        invariant
            i <= pos <= s@.len(),
            e0 <= *err <= s@.len(),
            target == sp_assign_list(s@, i as int),
            ({
                let rest = sp_assign_list_rest(s@, pos as int);
                target == Some((items.deep_view() + rest.0, rest.1))
            }),
        ensures
            i <= pos <= s@.len(),
            e0 <= *err <= s@.len(),
            target == Some((items.deep_view(), pos as int)),
        decreases s@.len() - pos,
    {
        let c = match lit(s, pos, ",", err) {
            Some(c) => c,
            None => {
                proof {
                    assert(items.deep_view() + Seq::<(Seq<char>, crate::ast::SqlValueV)>::empty()
                        =~= items.deep_view());
                }
                break;
            },
        };
        let c1 = skip_ws(s, c);
        let nxt = match parse_assignment(s, c1, err) {
            Some(p) => p,
            None => {
                proof {
                    assert(items.deep_view() + Seq::<(Seq<char>, crate::ast::SqlValueV)>::empty()
                        =~= items.deep_view());
                }
                break;
            },
        };
        if pos < nxt.1 {
            let ghost dv0 = items.deep_view();
            let ghost wn = (nxt.0.0@, nxt.0.1@);
            items.push(nxt.0);
            proof {
                assert(items.deep_view() =~= dv0 + seq![wn]);
                let rest_new = sp_assign_list_rest(s@, nxt.1 as int);
                assert(dv0 + (seq![wn] + rest_new.0) =~= (dv0 + seq![wn]) + rest_new.0);
            }
            pos = nxt.1;
        } else {
            proof {
                assert(items.deep_view() + Seq::<(Seq<char>, crate::ast::SqlValueV)>::empty()
                    =~= items.deep_view());
            }
            break;
        }
    }
    Some((items, pos))
}

// ---------------------------------------------------------------------------
// Column definitions (CREATE TABLE)
// ---------------------------------------------------------------------------

/// Parse the parenthesized length of a `VARCHAR(n)` type.
fn parse_varchar(s: &str, i: usize, err: &mut usize) -> (r: Option<usize>)
    requires
        i <= s@.len(),
        *old(err) <= s@.len(),
    ensures
        *old(err) <= *final(err) <= s@.len(),
        match r {
            Some(j) => sp_varchar(s@, i as int) == Some(j as int) && i <= j <= s@.len(),
            None => sp_varchar(s@, i as int) is None,
        },
{
    let j = match lit(s, i, "VARCHAR", err) {
        Some(j) => j,
        None => {
            return None;
        },
    };
    let j1 = skip_ws(s, j);
    let k = match lit(s, j1, "(", err) {
        Some(k) => k,
        None => {
            return None;
        },
    };
    let k1 = skip_ws(s, k);
    let d = scan_digits_end(s, k1);
    if d == k1 {
        note_err(err, k1);
        return None;
    }
    let d1 = skip_ws(s, d);
    lit(s, d1, ")", err)
}

/// Parse a column data type name.
fn parse_data_type(s: &str, i: usize, err: &mut usize) -> (r: Option<(DataType, usize)>)
    requires
        i <= s@.len(),
        *old(err) <= s@.len(),
    ensures
        *old(err) <= *final(err) <= s@.len(),
        match r {
            Some(p) => sp_data_type(s@, i as int) == Some((p.0, p.1 as int)) && i <= p.1
                <= s@.len(),
            None => sp_data_type(s@, i as int) is None,
        },
{
    match lit(s, i, "INT", err) {
        Some(j) => {
            return Some((DataType::Int, j));
        },
        None => {},
    }
    match lit(s, i, "INTEGER", err) {
        Some(j) => {
            return Some((DataType::Int, j));
        },
        None => {},
    }
    match lit(s, i, "FLOAT", err) {
        Some(j) => {
            return Some((DataType::Float, j));
        },
        None => {},
    }
    match lit(s, i, "DOUBLE", err) {
        Some(j) => {
            return Some((DataType::Float, j));
        },
        None => {},
    }
    match parse_varchar(s, i, err) {
        Some(j) => {
            return Some((DataType::String, j));
        },
        None => {},
    }
    match lit(s, i, "TEXT", err) {
        Some(j) => {
            return Some((DataType::String, j));
        },
        None => {},
    }
    match lit(s, i, "BOOLEAN", err) {
        Some(j) => {
            return Some((DataType::Bool, j));
        },
        None => {},
    }
    match lit(s, i, "BLOB", err) {
        Some(j) => {
            return Some((DataType::Blob, j));
        },
        None => {},
    }
    match lit(s, i, "TIMESTAMP", err) {
        Some(j) => {
            return Some((DataType::Timestamp, j));
        },
        None => {},
    }
    None
}

/// Parse a nullability modifier: `NOT NULL` or bare `NULL`.
fn parse_nullable(s: &str, i: usize, err: &mut usize) -> (r: Option<(bool, usize)>)
    requires
        i <= s@.len(),
        *old(err) <= s@.len(),
    ensures
        *old(err) <= *final(err) <= s@.len(),
        match r {
            Some(p) => sp_nullable(s@, i as int) == Some((p.0, p.1 as int)) && i <= p.1
                <= s@.len(),
            None => sp_nullable(s@, i as int) is None,
        },
{
    let i1 = match skip_ws1(s, i, err) {
        Some(i1) => i1,
        None => {
            return None;
        },
    };
    let notnull = match lit(s, i1, "NOT", err) {
        Some(j) => match skip_ws1(s, j, err) {
            Some(j1) => lit(s, j1, "NULL", err),
            None => None,
        },
        None => None,
    };
    match notnull {
        Some(k) => Some((false, k)),
        None => match lit(s, i1, "NULL", err) {
            Some(k) => Some((true, k)),
            None => None,
        },
    }
}

/// Parse the `PRIMARY KEY` modifier.
fn parse_primary_key(s: &str, i: usize, err: &mut usize) -> (r: Option<usize>)
    requires
        i <= s@.len(),
        *old(err) <= s@.len(),
    ensures
        *old(err) <= *final(err) <= s@.len(),
        match r {
            Some(j) => sp_primary_key(s@, i as int) == Some(j as int) && i <= j <= s@.len(),
            None => sp_primary_key(s@, i as int) is None,
        },
{
    let i1 = match skip_ws1(s, i, err) {
        Some(i1) => i1,
        None => {
            return None;
        },
    };
    let j = match lit(s, i1, "PRIMARY", err) {
        Some(j) => j,
        None => {
            return None;
        },
    };
    let j1 = match skip_ws1(s, j, err) {
        Some(j1) => j1,
        None => {
            return None;
        },
    };
    lit(s, j1, "KEY", err)
}

/// Parse one column definition.
fn parse_column_def(s: &str, i: usize, err: &mut usize) -> (r: Option<(ColumnDef, usize)>)
    requires
        i <= s@.len(),
        *old(err) <= s@.len(),
    ensures
        *old(err) <= *final(err) <= s@.len(),
        match r {
            Some(p) => sp_column_def(s@, i as int) == Some((p.0@, p.1 as int)) && i <= p.1
                <= s@.len(),
            None => sp_column_def(s@, i as int) is None,
        },
{
    let i1 = skip_ws(s, i);
    let name = match parse_identifier(s, i1, err) {
        Some(p) => p,
        None => {
            return None;
        },
    };
    let j1 = match skip_ws1(s, name.1, err) {
        Some(j1) => j1,
        None => {
            return None;
        },
    };
    let dt = match parse_data_type(s, j1, err) {
        Some(p) => p,
        None => {
            return None;
        },
    };
    let nl = match parse_nullable(s, dt.1, err) {
        Some(p) => p,
        None => (true, dt.1),
    };
    let pk = match parse_primary_key(s, nl.1, err) {
        Some(p) => (true, p),
        None => (false, nl.1),
    };
    let end = skip_ws(s, pk.1);
    Some(
        (
            ColumnDef { name: name.0, data_type: dt.0, nullable: nl.0, primary_key: pk.0 },
            end,
        ),
    )
}

/// Parse one or more comma-separated column definitions.
fn parse_coldef_list(s: &str, i: usize, err: &mut usize) -> (r: Option<(Vec<ColumnDef>, usize)>)
    requires
        i <= s@.len(),
        *old(err) <= s@.len(),
    ensures
        *old(err) <= *final(err) <= s@.len(),
        match r {
            Some(p) => sp_coldef_list(s@, i as int) == Some((p.0.deep_view(), p.1 as int)) && i
                <= p.1 <= s@.len(),
            None => sp_coldef_list(s@, i as int) is None,
        },
{
    let first = match parse_column_def(s, i, err) {
        Some(p) => p,
        None => {
            return None;
        },
    };
    let mut items: Vec<ColumnDef> = Vec::new();
    let ghost w0 = first.0@;
    items.push(first.0);
    let mut pos: usize = first.1;
    proof {
        assert(items.deep_view() =~= seq![w0]);
    }
    let ghost target = sp_coldef_list(s@, i as int);
    let ghost e0: usize = *err;
    loop
        invariant
            i <= pos <= s@.len(),
            e0 <= *err <= s@.len(),
            target == sp_coldef_list(s@, i as int),
            ({
                let rest = sp_coldef_list_rest(s@, pos as int);
                target == Some((items.deep_view() + rest.0, rest.1))
            }),
        ensures
            i <= pos <= s@.len(),
            e0 <= *err <= s@.len(),
            target == Some((items.deep_view(), pos as int)),
        decreases s@.len() - pos,
    {
        let c = match lit(s, pos, ",", err) {
            Some(c) => c,
            None => {
                proof {
                    assert(items.deep_view() + Seq::<crate::ast::ColumnDefV>::empty()
                        =~= items.deep_view());
                }
                break;
            },
        };
        let c1 = skip_ws(s, c);
        let nxt = match parse_column_def(s, c1, err) {
            Some(p) => p,
            None => {
                proof {
                    assert(items.deep_view() + Seq::<crate::ast::ColumnDefV>::empty()
                        =~= items.deep_view());
                }
                break;
            },
        };
        if pos < nxt.1 {
            let ghost dv0 = items.deep_view();
            let ghost wn = nxt.0@;
            items.push(nxt.0);
            proof {
                assert(items.deep_view() =~= dv0 + seq![wn]);
                let rest_new = sp_coldef_list_rest(s@, nxt.1 as int);
                assert(dv0 + (seq![wn] + rest_new.0) =~= (dv0 + seq![wn]) + rest_new.0);
            }
            pos = nxt.1;
        } else {
            proof {
                assert(items.deep_view() + Seq::<crate::ast::ColumnDefV>::empty()
                    =~= items.deep_view());
            }
            break;
        }
    }
    Some((items, pos))
}

// ---------------------------------------------------------------------------
// Statements
// ---------------------------------------------------------------------------

/// Consume the statement tail: optional whitespace, an optional semicolon,
/// optional whitespace.
fn parse_stmt_tail(s: &str, i: usize, err: &mut usize) -> (j: usize)
    requires
        i <= s@.len(),
        *old(err) <= s@.len(),
    ensures
        *old(err) <= *final(err) <= s@.len(),
        j as int == sp_stmt_tail(s@, i as int),
        i <= j <= s@.len(),
{
    let g = skip_ws(s, i);
    match lit(s, g, ";", err) {
        Some(h) => skip_ws(s, h),
        None => g,
    }
}

/// Parse a `SELECT` statement.
fn parse_select(s: &str, i: usize, err: &mut usize) -> (r: Option<(SqlStatement, usize)>)
    requires
        i <= s@.len(),
        *old(err) <= s@.len(),
    ensures
        *old(err) <= *final(err) <= s@.len(),
        match r {
            Some(p) => sp_select(s@, i as int) == Some((p.0@, p.1 as int)) && i <= p.1 <= s@.len(),
            None => sp_select(s@, i as int) is None,
        },
{
    let i1 = skip_ws(s, i);
    let a = match lit(s, i1, "SELECT", err) {
        Some(x) => x,
        None => {
            return None;
        },
    };
    let a1 = match skip_ws1(s, a, err) {
        Some(x) => x,
        None => {
            return None;
        },
    };
    let cols = match parse_column_list(s, a1, err) {
        Some(p) => p,
        None => {
            return None;
        },
    };
    let b1 = match skip_ws1(s, cols.1, err) {
        Some(x) => x,
        None => {
            return None;
        },
    };
    let c = match lit(s, b1, "FROM", err) {
        Some(x) => x,
        None => {
            return None;
        },
    };
    let c1 = match skip_ws1(s, c, err) {
        Some(x) => x,
        None => {
            return None;
        },
    };
    let table = match parse_identifier(s, c1, err) {
        Some(p) => p,
        None => {
            return None;
        },
    };
    let wc: (Option<WhereClause>, usize) = match parse_where(s, table.1, err) {
        Some(p) => (Some(WhereClause { condition: p.0 }), p.1),
        None => (None, table.1),
    };
    let lim: (Option<usize>, usize) = match parse_limit(s, wc.1, err) {
        Some(p) => (Some(p.0), p.1),
        None => (None, wc.1),
    };
    let end = parse_stmt_tail(s, lim.1, err);
    Some(
        (
            SqlStatement::Select {
                columns: cols.0,
                table: table.0,
                where_clause: wc.0,
                limit: lim.0,
            },
            end,
        ),
    )
}

/// Parse an `INSERT` statement.
fn parse_insert(s: &str, i: usize, err: &mut usize) -> (r: Option<(SqlStatement, usize)>)
    requires
        i <= s@.len(),
        *old(err) <= s@.len(),
    ensures
        *old(err) <= *final(err) <= s@.len(),
        match r {
            Some(p) => sp_insert(s@, i as int) == Some((p.0@, p.1 as int)) && i <= p.1 <= s@.len(),
            None => sp_insert(s@, i as int) is None,
        },
{
    let i1 = skip_ws(s, i);
    let a = match lit(s, i1, "INSERT", err) {
        Some(x) => x,
        None => {
            return None;
        },
    };
    let a1 = match skip_ws1(s, a, err) {
        Some(x) => x,
        None => {
            return None;
        },
    };
    let b = match lit(s, a1, "INTO", err) {
        Some(x) => x,
        None => {
            return None;
        },
    };
    let b1 = match skip_ws1(s, b, err) {
        Some(x) => x,
        None => {
            return None;
        },
    };
    let table = match parse_identifier(s, b1, err) {
        Some(p) => p,
        None => {
            return None;
        },
    };
    let c1 = skip_ws(s, table.1);
    let d = match lit(s, c1, "(", err) {
        Some(x) => x,
        None => {
            return None;
        },
    };
    let d1 = skip_ws(s, d);
    let cols = match parse_ident_list(s, d1, err) {
        Some(p) => p,
        None => {
            return None;
        },
    };
    let e1 = skip_ws(s, cols.1);
    let f = match lit(s, e1, ")", err) {
        Some(x) => x,
        None => {
            return None;
        },
    };
    let f1 = skip_ws(s, f);
    let g = match lit(s, f1, "VALUES", err) {
        Some(x) => x,
        None => {
            return None;
        },
    };
    let g1 = skip_ws(s, g);
    let h = match lit(s, g1, "(", err) {
        Some(x) => x,
        None => {
            return None;
        },
    };
    let h1 = skip_ws(s, h);
    let vals = match parse_value_list(s, h1, err) {
        Some(p) => p,
        None => {
            return None;
        },
    };
    let p1 = skip_ws(s, vals.1);
    let q = match lit(s, p1, ")", err) {
        Some(x) => x,
        None => {
            return None;
        },
    };
    let end = parse_stmt_tail(s, q, err);
    Some(
        (
            SqlStatement::Insert { table: table.0, columns: cols.0, values: vals.0 },
            end,
        ),
    )
}

/// Parse an `UPDATE` statement.
fn parse_update(s: &str, i: usize, err: &mut usize) -> (r: Option<(SqlStatement, usize)>)
    requires
        i <= s@.len(),
        *old(err) <= s@.len(),
    ensures
        *old(err) <= *final(err) <= s@.len(),
        match r {
            Some(p) => sp_update(s@, i as int) == Some((p.0@, p.1 as int)) && i <= p.1 <= s@.len(),
            None => sp_update(s@, i as int) is None,
        },
{
    let i1 = skip_ws(s, i);
    let a = match lit(s, i1, "UPDATE", err) {
        Some(x) => x,
        None => {
            return None;
        },
    };
    let a1 = match skip_ws1(s, a, err) {
        Some(x) => x,
        None => {
            return None;
        },
    };
    let table = match parse_identifier(s, a1, err) {
        Some(p) => p,
        None => {
            return None;
        },
    };
    let b1 = match skip_ws1(s, table.1, err) {
        Some(x) => x,
        None => {
            return None;
        },
    };
    let c = match lit(s, b1, "SET", err) {
        Some(x) => x,
        None => {
            return None;
        },
    };
    let c1 = match skip_ws1(s, c, err) {
        Some(x) => x,
        None => {
            return None;
        },
    };
    let assigns = match parse_assign_list(s, c1, err) {
        Some(p) => p,
        None => {
            return None;
        },
    };
    let wc: (Option<WhereClause>, usize) = match parse_where(s, assigns.1, err) {
        Some(p) => (Some(WhereClause { condition: p.0 }), p.1),
        None => (None, assigns.1),
    };
    let end = parse_stmt_tail(s, wc.1, err);
    Some(
        (
            SqlStatement::Update { table: table.0, assignments: assigns.0, where_clause: wc.0 },
            end,
        ),
    )
}

/// Parse a `DELETE` statement.
fn parse_delete(s: &str, i: usize, err: &mut usize) -> (r: Option<(SqlStatement, usize)>)
    requires
        i <= s@.len(),
        *old(err) <= s@.len(),
    ensures
        *old(err) <= *final(err) <= s@.len(),
        match r {
            Some(p) => sp_delete(s@, i as int) == Some((p.0@, p.1 as int)) && i <= p.1 <= s@.len(),
            None => sp_delete(s@, i as int) is None,
        },
{
    let i1 = skip_ws(s, i);
    let a = match lit(s, i1, "DELETE", err) {
        Some(x) => x,
        None => {
            return None;
        },
    };
    let a1 = match skip_ws1(s, a, err) {
        Some(x) => x,
        None => {
            return None;
        },
    };
    let b = match lit(s, a1, "FROM", err) {
        Some(x) => x,
        None => {
            return None;
        },
    };
    let b1 = match skip_ws1(s, b, err) {
        Some(x) => x,
        None => {
            return None;
        },
    };
    let table = match parse_identifier(s, b1, err) {
        Some(p) => p,
        None => {
            return None;
        },
    };
    let wc: (Option<WhereClause>, usize) = match parse_where(s, table.1, err) {
        Some(p) => (Some(WhereClause { condition: p.0 }), p.1),
        None => (None, table.1),
    };
    let end = parse_stmt_tail(s, wc.1, err);
    Some(
        (
            SqlStatement::Delete { table: table.0, where_clause: wc.0 },
            end,
        ),
    )
}

/// Parse a `CREATE TABLE` statement.
fn parse_create_table(s: &str, i: usize, err: &mut usize) -> (r: Option<(SqlStatement, usize)>)
    requires
        i <= s@.len(),
        *old(err) <= s@.len(),
    ensures
        *old(err) <= *final(err) <= s@.len(),
        match r {
            Some(p) => sp_create_table(s@, i as int) == Some((p.0@, p.1 as int)) && i <= p.1
                <= s@.len(),
            None => sp_create_table(s@, i as int) is None,
        },
{
    let i1 = skip_ws(s, i);
    let a = match lit(s, i1, "CREATE", err) {
        Some(x) => x,
        None => {
            return None;
        },
    };
    let a1 = match skip_ws1(s, a, err) {
        Some(x) => x,
        None => {
            return None;
        },
    };
    let b = match lit(s, a1, "TABLE", err) {
        Some(x) => x,
        None => {
            return None;
        },
    };
    let b1 = match skip_ws1(s, b, err) {
        Some(x) => x,
        None => {
            return None;
        },
    };
    let name = match parse_identifier(s, b1, err) {
        Some(p) => p,
        None => {
            return None;
        },
    };
    let c1 = skip_ws(s, name.1);
    let d = match lit(s, c1, "(", err) {
        Some(x) => x,
        None => {
            return None;
        },
    };
    let d1 = skip_ws(s, d);
    let cols = match parse_coldef_list(s, d1, err) {
        Some(p) => p,
        None => {
            return None;
        },
    };
    let e1 = skip_ws(s, cols.1);
    let f = match lit(s, e1, ")", err) {
        Some(x) => x,
        None => {
            return None;
        },
    };
    let end = parse_stmt_tail(s, f, err);
    Some(
        (
            SqlStatement::CreateTable { name: name.0, columns: cols.0 },
            end,
        ),
    )
}

// ---------------------------------------------------------------------------
// Entry points
// ---------------------------------------------------------------------------

/// Parse a SQL statement string into an abstract syntax tree.
///
/// The result is pinned down exactly by the grammar: parsing succeeds if
/// and only if the grammar derives a statement covering the whole input,
/// and the returned tree is the one the grammar denotes.  On failure the
/// error carries a character offset within the input at which a rule
/// failed.  The function never panics.
pub fn parse_sql(input: &str) -> (r: Result<SqlStatement, ParseError>)
    ensures
        match r {
            Ok(stmt) => sp_statement(input@) == Some(stmt@),
            Err(e) => sp_statement(input@) is None && e.offset <= input@.len(),
        },
{
    let mut err: usize = 0;
    let n = input.unicode_len();
    let dispatched: Option<(SqlStatement, usize)> = match parse_select(input, 0, &mut err) {
        Some(p) => Some(p),
        None => match parse_insert(input, 0, &mut err) {
            Some(p) => Some(p),
            None => match parse_update(input, 0, &mut err) {
                Some(p) => Some(p),
                None => match parse_delete(input, 0, &mut err) {
                    Some(p) => Some(p),
                    None => parse_create_table(input, 0, &mut err),
                },
            },
        },
    };
    match dispatched {
        Some(p) => {
            if p.1 == n {
                Ok(p.0)
            } else {
                note_err(&mut err, p.1);
                Err(ParseError { offset: err })
            }
        },
        None => Err(ParseError { offset: err }),
    }
}

/// Execute a parsed statement with bound parameters.  Execution is not
/// part of this core: the statement is accepted and an empty success is
/// returned for every input, which the contract states exactly.
pub fn execute_sql(_stmt: &SqlStatement, _params: &HashMap<String, String>) -> (r: Result<
    (),
    String,
>)
    ensures
        r is Ok,
{
    Ok(())
}

/// Parsing is deterministic: the grammar denotes a single result for a
/// given input text, so two parses of identical input always agree, and a
/// re-parse of the same statement text yields a structurally identical
/// tree.
pub proof fn lemma_parse_deterministic(
    s: Seq<char>,
    r1: Option<SqlStatementV>,
    r2: Option<SqlStatementV>,
)
    requires
        r1 == sp_statement(s),
        r2 == sp_statement(s),
    ensures
        r1 == r2,
{
}

} // verus!

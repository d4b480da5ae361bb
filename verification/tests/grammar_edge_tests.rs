use minidb::parse_sql;
use minidb::ComparisonOp;
use minidb::Condition;
use minidb::SqlStatement;
use minidb::SqlValue;

fn where_value(sql: &str) -> SqlValue {
    match parse_sql(sql).unwrap() {
        SqlStatement::Select { where_clause, .. } => {
            match where_clause.expect("expected a WHERE clause").condition {
                Condition::Comparison { right, .. } => right,
                _ => panic!("Expected a comparison"),
            }
        }
        _ => panic!("Expected SELECT statement"),
    }
}

fn where_op(sql: &str) -> ComparisonOp {
    match parse_sql(sql).unwrap() {
        SqlStatement::Select { where_clause, .. } => {
            match where_clause.expect("expected a WHERE clause").condition {
                Condition::Comparison { op, .. } => op,
                _ => panic!("Expected a comparison"),
            }
        }
        _ => panic!("Expected SELECT statement"),
    }
}

#[test]
fn test_float_not_truncated_to_integer() {
    assert_eq!(where_value("SELECT * FROM t WHERE x = 1.5"), SqlValue::Float("1.5".to_string()));
    assert_eq!(
        where_value("SELECT * FROM t WHERE x = -2.75"),
        SqlValue::Float("-2.75".to_string())
    );
    // A trailing dot is a float with an empty fraction.
    assert_eq!(where_value("SELECT * FROM t WHERE x = 1."), SqlValue::Float("1.".to_string()));
}

#[test]
fn test_integer_literals() {
    assert_eq!(where_value("SELECT * FROM t WHERE x = 0"), SqlValue::Integer(0));
    assert_eq!(where_value("SELECT * FROM t WHERE x = -42"), SqlValue::Integer(-42));
    assert_eq!(
        where_value("SELECT * FROM t WHERE x = 9223372036854775807"),
        SqlValue::Integer(i64::MAX)
    );
    assert_eq!(
        where_value("SELECT * FROM t WHERE x = -9223372036854775808"),
        SqlValue::Integer(i64::MIN)
    );
    assert_eq!(where_value("SELECT * FROM t WHERE x = 007"), SqlValue::Integer(7));
}

#[test]
fn test_integer_overflow_is_an_error_not_a_panic() {
    assert!(parse_sql("SELECT * FROM t WHERE x = 9223372036854775808").is_err());
    assert!(parse_sql("SELECT * FROM t WHERE x = -9223372036854775809").is_err());
    assert!(parse_sql("SELECT * FROM t WHERE x = 99999999999999999999999999").is_err());
}

#[test]
fn test_string_literals() {
    assert_eq!(
        where_value("SELECT * FROM t WHERE x = 'hello world'"),
        SqlValue::String("hello world".to_string())
    );
    assert_eq!(
        where_value("SELECT * FROM t WHERE x = \"double\""),
        SqlValue::String("double".to_string())
    );
    assert_eq!(where_value("SELECT * FROM t WHERE x = ''"), SqlValue::String(String::new()));
    // No escape processing: the body runs to the first matching quote.
    assert_eq!(
        where_value("SELECT * FROM t WHERE x = 'a\"b'"),
        SqlValue::String("a\"b".to_string())
    );
}

#[test]
fn test_boolean_and_null_literals() {
    assert_eq!(where_value("SELECT * FROM t WHERE x = TRUE"), SqlValue::Boolean(true));
    assert_eq!(where_value("SELECT * FROM t WHERE x = FALSE"), SqlValue::Boolean(false));
    assert_eq!(where_value("SELECT * FROM t WHERE x = NULL"), SqlValue::Null);
}

#[test]
fn test_comparison_operators() {
    assert_eq!(where_op("SELECT * FROM t WHERE x = 1"), ComparisonOp::Eq);
    assert_eq!(where_op("SELECT * FROM t WHERE x != 1"), ComparisonOp::NotEq);
    assert_eq!(where_op("SELECT * FROM t WHERE x <> 1"), ComparisonOp::NotEq);
    assert_eq!(where_op("SELECT * FROM t WHERE x <= 1"), ComparisonOp::LtEq);
    assert_eq!(where_op("SELECT * FROM t WHERE x < 1"), ComparisonOp::Lt);
    assert_eq!(where_op("SELECT * FROM t WHERE x >= 1"), ComparisonOp::GtEq);
    assert_eq!(where_op("SELECT * FROM t WHERE x > 1"), ComparisonOp::Gt);
    assert_eq!(where_op("SELECT * FROM t WHERE x LIKE 'a%'"), ComparisonOp::Like);
}

#[test]
fn test_limit_clause() {
    match parse_sql("SELECT * FROM t LIMIT 10;").unwrap() {
        SqlStatement::Select { limit, .. } => assert_eq!(limit, Some(10)),
        _ => panic!("Expected SELECT statement"),
    }
    match parse_sql("SELECT * FROM t;").unwrap() {
        SqlStatement::Select { limit, .. } => assert_eq!(limit, None),
        _ => panic!("Expected SELECT statement"),
    }
    // LIMIT takes unsigned digits only; a negative count does not parse.
    assert!(parse_sql("SELECT * FROM t LIMIT -1").is_err());
    // A count too large for the machine's word fails rather than wrapping.
    assert!(parse_sql("SELECT * FROM t LIMIT 99999999999999999999999999").is_err());
}

#[test]
fn test_update_statement() {
    match parse_sql("UPDATE users SET name = 'Bob' WHERE id = 1").unwrap() {
        SqlStatement::Update { table, assignments, where_clause } => {
            assert_eq!(table, "users");
            assert_eq!(
                assignments,
                vec![("name".to_string(), SqlValue::String("Bob".to_string()))]
            );
            assert!(where_clause.is_some());
        }
        _ => panic!("Expected UPDATE statement"),
    }
}

#[test]
fn test_update_multiple_assignments() {
    match parse_sql("UPDATE t SET a = 1, b = 'x'").unwrap() {
        SqlStatement::Update { assignments, where_clause, .. } => {
            assert_eq!(assignments.len(), 2);
            assert_eq!(assignments[0], ("a".to_string(), SqlValue::Integer(1)));
            assert_eq!(assignments[1], ("b".to_string(), SqlValue::String("x".to_string())));
            assert!(where_clause.is_none());
        }
        _ => panic!("Expected UPDATE statement"),
    }
}

#[test]
fn test_delete_statement() {
    match parse_sql("DELETE FROM users WHERE id = 1").unwrap() {
        SqlStatement::Delete { table, where_clause } => {
            assert_eq!(table, "users");
            assert!(where_clause.is_some());
        }
        _ => panic!("Expected DELETE statement"),
    }
    match parse_sql("DELETE FROM users").unwrap() {
        SqlStatement::Delete { where_clause, .. } => assert!(where_clause.is_none()),
        _ => panic!("Expected DELETE statement"),
    }
}

#[test]
fn test_backtick_identifiers_bypass_keywords() {
    match parse_sql("SELECT * FROM `SELECT`").unwrap() {
        SqlStatement::Select { table, .. } => assert_eq!(table, "SELECT"),
        _ => panic!("Expected SELECT statement"),
    }
}

#[test]
fn test_keywords_are_not_identifiers() {
    assert!(parse_sql("SELECT SELECT FROM t").is_err());
    assert!(parse_sql("SELECT * FROM WHERE").is_err());
}

#[test]
fn test_keyword_prefix_is_an_identifier() {
    // Keyword exclusion compares the whole span: an identifier that merely
    // starts with a keyword is accepted.
    match parse_sql("SELECT SELECTED FROM t").unwrap() {
        SqlStatement::Select { columns, .. } => {
            assert_eq!(columns, vec!["SELECTED".to_string()]);
        }
        _ => panic!("Expected SELECT statement"),
    }
}

#[test]
fn test_lowercase_keywords_are_not_recognized() {
    // Keyword matching is case-sensitive, so a lowercase query matches no
    // statement form.
    assert!(parse_sql("select id from users").is_err());
}

#[test]
fn test_whitespace_forms() {
    assert!(parse_sql("  SELECT\tid,\n name  FROM\r\nusers ;  ").is_ok());
    // A missing separator between keywords is an error.
    assert!(parse_sql("SELECT idFROM users").is_err());
}

#[test]
fn test_int_before_integer_ordered_choice() {
    // The data-type alternatives are ordered with INT before INTEGER, so
    // the INT alternative consumes the prefix of INTEGER and the leftover
    // text makes the statement fail: ordered choice never reconsiders.
    assert!(parse_sql("CREATE TABLE t (id INTEGER)").is_err());
    assert!(parse_sql("CREATE TABLE t (id INT)").is_ok());
}

#[test]
fn test_spaces_before_commas_in_plain_lists() {
    // Identifier and value lists accept whitespace only after a comma,
    // not before it.
    assert!(parse_sql("SELECT a , b FROM t").is_err());
    assert!(parse_sql("SELECT a, b FROM t").is_ok());
    // Column-definition and assignment lists absorb whitespace around
    // each item, so space before the comma is fine there.
    assert!(parse_sql("CREATE TABLE t (a INT , b TEXT)").is_ok());
    assert!(parse_sql("UPDATE t SET a = 1 , b = 2").is_ok());
}

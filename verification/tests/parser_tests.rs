use minidb::parse_sql;
use minidb::ComparisonOp;
use minidb::Condition;
use minidb::DataType;
use minidb::SqlStatement;
use minidb::SqlValue;
use minidb::WhereClause;

#[test]
fn test_simple_select() {
    let sql = "SELECT id, name FROM users;";
    let parsed = parse_sql(sql).unwrap();

    assert_eq!(
        parsed,
        SqlStatement::Select {
            columns: vec!["id".to_string(), "name".to_string()],
            table: "users".to_string(),
            where_clause: None,
            limit: None,
        }
    );
}

#[test]
fn test_select_with_where() {
    let sql = "SELECT * FROM users WHERE id = 1;";
    let parsed = parse_sql(sql).unwrap();

    match parsed {
        SqlStatement::Select { columns, table, where_clause, .. } => {
            assert_eq!(columns, vec!["*".to_string()]);
            assert_eq!(table, "users");
            assert!(where_clause.is_some());
        }
        _ => panic!("Expected SELECT statement"),
    }
}

#[test]
fn test_insert() {
    let sql = "INSERT INTO users (id, name) VALUES (1, 'Alice');";
    let parsed = parse_sql(sql).unwrap();

    match parsed {
        SqlStatement::Insert { table, columns, values } => {
            assert_eq!(table, "users");
            assert_eq!(columns, vec!["id".to_string(), "name".to_string()]);
            assert_eq!(values.len(), 2);
        }
        _ => panic!("Expected INSERT statement"),
    }
}

#[test]
fn test_select_where_comparison_exact() {
    let parsed = parse_sql("SELECT * FROM users WHERE id = 1;").unwrap();
    assert_eq!(
        parsed,
        SqlStatement::Select {
            columns: vec!["*".to_string()],
            table: "users".to_string(),
            where_clause: Some(WhereClause {
                condition: Condition::Comparison {
                    left: "id".to_string(),
                    op: ComparisonOp::Eq,
                    right: SqlValue::Integer(1),
                },
            }),
            limit: None,
        }
    );
}

#[test]
fn test_insert_values_exact() {
    let parsed = parse_sql("INSERT INTO users (id, name) VALUES (1, 'Alice');").unwrap();
    assert_eq!(
        parsed,
        SqlStatement::Insert {
            table: "users".to_string(),
            columns: vec!["id".to_string(), "name".to_string()],
            values: vec![SqlValue::Integer(1), SqlValue::String("Alice".to_string())],
        }
    );
}

#[test]
fn test_insert_arity_mismatch_accepted() {
    // Column/value count mismatch is accepted syntactically; arity is not
    // validated by the parser.
    let parsed = parse_sql("INSERT INTO users (id, name) VALUES (1);").unwrap();
    match parsed {
        SqlStatement::Insert { columns, values, .. } => {
            assert_eq!(columns.len(), 2);
            assert_eq!(values.len(), 1);
        }
        _ => panic!("Expected INSERT statement"),
    }
}

#[test]
fn test_and_binds_tighter_than_or() {
    let parsed = parse_sql("SELECT * FROM users WHERE a = 1 OR b = 2 AND c = 3").unwrap();
    let expected = Condition::Or(
        Box::new(Condition::Comparison {
            left: "a".to_string(),
            op: ComparisonOp::Eq,
            right: SqlValue::Integer(1),
        }),
        Box::new(Condition::And(
            Box::new(Condition::Comparison {
                left: "b".to_string(),
                op: ComparisonOp::Eq,
                right: SqlValue::Integer(2),
            }),
            Box::new(Condition::Comparison {
                left: "c".to_string(),
                op: ComparisonOp::Eq,
                right: SqlValue::Integer(3),
            }),
        )),
    );
    match parsed {
        SqlStatement::Select { where_clause, .. } => {
            assert_eq!(where_clause, Some(WhereClause { condition: expected }));
        }
        _ => panic!("Expected SELECT statement"),
    }
}

#[test]
fn test_and_chain_groups_right() {
    let parsed = parse_sql("SELECT * FROM t WHERE a = 1 AND b = 2 AND c = 3").unwrap();
    let leaf = |name: &str, n: i64| Condition::Comparison {
        left: name.to_string(),
        op: ComparisonOp::Eq,
        right: SqlValue::Integer(n),
    };
    let expected = Condition::And(
        Box::new(leaf("a", 1)),
        Box::new(Condition::And(Box::new(leaf("b", 2)), Box::new(leaf("c", 3)))),
    );
    match parsed {
        SqlStatement::Select { where_clause, .. } => {
            assert_eq!(where_clause, Some(WhereClause { condition: expected }));
        }
        _ => panic!("Expected SELECT statement"),
    }
}

#[test]
fn test_create_table_column_defaults() {
    let parsed = parse_sql("CREATE TABLE users (id INT PRIMARY KEY, name TEXT)").unwrap();
    match parsed {
        SqlStatement::CreateTable { name, columns } => {
            assert_eq!(name, "users");
            assert_eq!(columns.len(), 2);
            assert_eq!(columns[0].name, "id");
            assert_eq!(columns[0].data_type, DataType::Int);
            assert!(columns[0].nullable);
            assert!(columns[0].primary_key);
            assert_eq!(columns[1].name, "name");
            assert_eq!(columns[1].data_type, DataType::String);
            assert!(columns[1].nullable);
            assert!(!columns[1].primary_key);
        }
        _ => panic!("Expected CREATE TABLE statement"),
    }
}

#[test]
fn test_create_table_not_null_and_types() {
    let parsed = parse_sql(
        "CREATE TABLE t (a INT NOT NULL, b FLOAT NULL, c BOOLEAN, d BLOB, e TIMESTAMP, f VARCHAR(255))",
    )
    .unwrap();
    match parsed {
        SqlStatement::CreateTable { columns, .. } => {
            assert_eq!(columns.len(), 6);
            assert!(!columns[0].nullable);
            assert_eq!(columns[1].data_type, DataType::Float);
            assert!(columns[1].nullable);
            assert_eq!(columns[2].data_type, DataType::Bool);
            assert_eq!(columns[3].data_type, DataType::Blob);
            assert_eq!(columns[4].data_type, DataType::Timestamp);
            assert_eq!(columns[5].data_type, DataType::String);
        }
        _ => panic!("Expected CREATE TABLE statement"),
    }
}

#[test]
fn test_named_parameter() {
    let parsed = parse_sql("SELECT * FROM users WHERE id = :user_id").unwrap();
    match parsed {
        SqlStatement::Select { where_clause, .. } => {
            let wc = where_clause.expect("expected a WHERE clause");
            assert_eq!(
                wc.condition,
                Condition::Comparison {
                    left: "id".to_string(),
                    op: ComparisonOp::Eq,
                    right: SqlValue::Parameter("user_id".to_string()),
                }
            );
        }
        _ => panic!("Expected SELECT statement"),
    }
}

#[test]
fn test_positional_parameter() {
    let parsed = parse_sql("SELECT * FROM users WHERE id = ?").unwrap();
    match parsed {
        SqlStatement::Select { where_clause, .. } => {
            let wc = where_clause.expect("expected a WHERE clause");
            match wc.condition {
                Condition::Comparison { right, .. } => {
                    assert_eq!(right, SqlValue::Parameter("?".to_string()));
                }
                _ => panic!("Expected a comparison"),
            }
        }
        _ => panic!("Expected SELECT statement"),
    }
}

#[test]
fn test_invalid_inputs_return_errors() {
    assert!(parse_sql("SELECT FROM WHERE").is_err());
    assert!(parse_sql("").is_err());
    assert!(parse_sql("   ").is_err());
    assert!(parse_sql("DROP TABLE users").is_err());
    assert!(parse_sql("SELECT * FROM t extra").is_err());
}

#[test]
fn test_error_offset_within_input() {
    let inputs = ["SELECT FROM WHERE", "", "SELECT * FROM t WHERE", "INSERT INTO t"];
    for sql in inputs {
        let e = parse_sql(sql).unwrap_err();
        assert!(e.offset <= sql.chars().count());
    }
}

#[test]
fn test_reparse_is_deterministic() {
    let sql = "SELECT id, name FROM users WHERE a = 1 OR b = 2 AND c = 3 LIMIT 7;";
    let first = parse_sql(sql).unwrap();
    let second = parse_sql(sql).unwrap();
    assert_eq!(first, second);
}

use std::collections::HashMap;

use minidb::coordinator::NodeStatus;
use minidb::execute_sql;
use minidb::parse_sql;
use minidb::util::decimal_string;
use minidb::util::random_delay;
use minidb::util::timestamp_ms;
use minidb::Coordinator;
use minidb::CoordinatorConfig;
use minidb::DatabaseError;
use minidb::KeyRange;
use minidb::NodeConfig;
use minidb::NodeId;

#[test]
fn test_sql_parser_integration() {
    let mut coordinator = Coordinator::new();

    let select_result =
        coordinator.execute_query("SELECT id, name FROM users".to_string(), HashMap::new());
    assert!(select_result.is_ok(), "SELECT query should parse successfully");

    let insert_result = coordinator.execute_query(
        "INSERT INTO users (id, name) VALUES (1, 'Alice')".to_string(),
        HashMap::new(),
    );
    assert!(insert_result.is_ok(), "INSERT query should parse successfully");

    let update_result = coordinator
        .execute_query("UPDATE users SET name = 'Bob' WHERE id = 1".to_string(), HashMap::new());
    assert!(update_result.is_ok(), "UPDATE query should parse successfully");

    let delete_result =
        coordinator.execute_query("DELETE FROM users WHERE id = 1".to_string(), HashMap::new());
    assert!(delete_result.is_ok(), "DELETE query should parse successfully");

    let create_result = coordinator.execute_query(
        "CREATE TABLE users (id INT PRIMARY KEY, name TEXT)".to_string(),
        HashMap::new(),
    );
    assert!(create_result.is_ok(), "CREATE TABLE query should parse successfully");

    let mut params = HashMap::new();
    params.insert("user_id".to_string(), "1".to_string());
    let param_result =
        coordinator.execute_query("SELECT * FROM users WHERE id = :user_id".to_string(), params);
    assert!(param_result.is_ok(), "Parameterized query should parse successfully");

    let invalid_result = coordinator.execute_query("SELECT FROM WHERE".to_string(), HashMap::new());
    assert!(invalid_result.is_err(), "Invalid SQL should return an error");
}

#[test]
fn test_execute_query_error_is_sql_parsing() {
    let mut coordinator = Coordinator::new();
    let err = coordinator.execute_query("nonsense".to_string(), HashMap::new()).unwrap_err();
    match &err {
        DatabaseError::SqlParsing(msg) => {
            assert!(msg.starts_with("syntax error at character "));
        }
        other => panic!("expected a SQL parsing error, got {:?}", other),
    }
    assert_eq!(err.describe(), "SQL parsing error: syntax error at character 0");
}

#[test]
fn test_coordinator_node_lifecycle() {
    let mut c = Coordinator::new();
    assert_eq!(c.get_node_status("n1"), None);

    c.add_node("n1".to_string(), NodeStatus::Active);
    c.add_node("n2".to_string(), NodeStatus::Inactive);
    assert_eq!(c.get_node_status("n1"), Some(&NodeStatus::Active));
    assert_eq!(c.get_node_status("n2"), Some(&NodeStatus::Inactive));

    // Re-adding a node replaces its status.
    c.add_node("n1".to_string(), NodeStatus::Failed);
    assert_eq!(c.get_node_status("n1"), Some(&NodeStatus::Failed));

    let old = c.update_node_status("n2", NodeStatus::Failed);
    assert_eq!(old, Some(NodeStatus::Inactive));
    assert_eq!(c.get_node_status("n2"), Some(&NodeStatus::Failed));

    // Updating an unknown node changes nothing.
    assert_eq!(c.update_node_status("ghost", NodeStatus::Active), None);
    assert_eq!(c.get_node_status("ghost"), None);

    assert_eq!(c.remove_node("n1"), Some(NodeStatus::Failed));
    assert_eq!(c.get_node_status("n1"), None);
    assert_eq!(c.remove_node("n1"), None);
    assert_eq!(c.get_node_status("n2"), Some(&NodeStatus::Failed));
}

#[test]
fn test_coordinator_kv_stubs() {
    let mut c = Coordinator::new();
    assert_eq!(c.get("k".to_string()).unwrap(), Vec::<u8>::new());
    assert!(c.put("k".to_string(), vec![1, 2, 3]).is_ok());
    assert!(c.delete("k".to_string()).is_ok());
    assert_eq!(c.scan("a".to_string(), "z".to_string(), 10).unwrap().len(), 0);
}

#[test]
fn test_key_range_contains() {
    let range = KeyRange::new("b".to_string(), "d".to_string());
    assert!(!range.contains("a"));
    assert!(range.contains("b"));
    assert!(range.contains("c"));
    assert!(range.contains("cz"));
    assert!(!range.contains("d"));
    assert!(!range.contains("e"));
    // The start bound is inclusive, the end bound exclusive.
    assert!(range.contains("bb"));
    assert!(!range.contains("da"));

    let empty = KeyRange::new("m".to_string(), "m".to_string());
    assert!(!empty.contains("m"));
}

#[test]
fn test_node_config_defaults() {
    let cfg = NodeConfig::default();
    assert_eq!(cfg.node_id, NodeId("node1".to_string()));
    assert_eq!(cfg.listen_addr, "127.0.0.1:9090");
    assert_eq!(cfg.data_dir, "data");
    assert!(cfg.raft_peers.is_empty());
    assert!(cfg.coordinator_addr.is_none());
    assert_eq!(cfg.heartbeat_interval_ms, 100);
    assert_eq!(cfg.election_timeout_min_ms, 150);
    assert_eq!(cfg.election_timeout_max_ms, 300);
    assert_eq!(cfg.snapshot_threshold, 1000);
}

#[test]
fn test_coordinator_config_defaults() {
    let cfg = CoordinatorConfig::default();
    assert_eq!(cfg.listen_addr, "127.0.0.1:8080");
    assert!(cfg.initial_nodes.is_empty());
    assert_eq!(cfg.metadata_refresh_interval_ms, 1000);
}

#[test]
fn test_database_error_describe() {
    assert_eq!(
        DatabaseError::Io("disk gone".to_string()).describe(),
        "IO error: disk gone"
    );
    assert_eq!(
        DatabaseError::Rpc("timeout".to_string()).describe(),
        "RPC error: timeout"
    );
    assert_eq!(
        DatabaseError::SqlParsing("bad query".to_string()).describe(),
        "SQL parsing error: bad query"
    );
    assert_eq!(
        DatabaseError::NodeNotFound("n7".to_string()).describe(),
        "Node not found: n7"
    );
    assert_eq!(
        DatabaseError::Config("missing".to_string()).describe(),
        "Configuration error: missing"
    );
    assert_eq!(
        DatabaseError::Unknown("eh".to_string()).describe(),
        "Unknown error: eh"
    );
}

#[test]
fn test_database_error_from_string() {
    let e = DatabaseError::from("boom".to_string());
    assert_eq!(e, DatabaseError::Unknown("boom".to_string()));
}

#[test]
fn test_node_id_from_string() {
    let id = NodeId::from("node9".to_string());
    assert_eq!(id, NodeId("node9".to_string()));
}

#[test]
fn test_decimal_string() {
    assert_eq!(decimal_string(0), "0");
    assert_eq!(decimal_string(7), "7");
    assert_eq!(decimal_string(10), "10");
    assert_eq!(decimal_string(90210), "90210");
    assert_eq!(decimal_string(usize::MAX), format!("{}", usize::MAX));
}

#[test]
fn test_random_delay_in_range() {
    for _ in 0..32 {
        let d = random_delay(100, 300);
        assert!((100..=300).contains(&d));
    }
    // A degenerate range pins the value exactly.
    assert_eq!(random_delay(42, 42), 42);
}

#[test]
fn test_timestamp_ms_smoke() {
    // Nothing is promised of the clock's value; the call must simply
    // return without failing.
    let a = timestamp_ms();
    let b = timestamp_ms();
    // Allow for a clock adjustment between the two calls.
    assert!(b + 3_600_000 >= a);
}

#[test]
fn test_execute_sql_accepts_statement() {
    let stmt = parse_sql("SELECT * FROM users").unwrap();
    let params: HashMap<String, String> = HashMap::new();
    assert!(execute_sql(&stmt, &params).is_ok());
}

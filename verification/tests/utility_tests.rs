use rust_tokio_example::name_table::NameTable;
use rust_tokio_example::utility::env_detector::EnvDetector;

#[test]
fn test_get_port() {
    let mut vars = NameTable::new();
    vars.insert("PORT".to_string(), "1234".to_string());

    assert_eq!(EnvDetector::get_port(&vars), Some("1234".to_string()));
}

#[test]
fn host_and_missing_variables() {
    let mut vars = NameTable::new();
    assert_eq!(EnvDetector::get_host(&vars), None);
    vars.insert("HOST".to_string(), "127.0.0.1".to_string());
    vars.insert("PORT".to_string(), "80".to_string());
    vars.insert("PORT".to_string(), "8080".to_string());
    assert_eq!(EnvDetector::get_host(&vars), Some("127.0.0.1".to_string()));
    assert_eq!(EnvDetector::get_port(&vars), Some("8080".to_string()));
    assert_eq!(EnvDetector::get_var(&vars, "USER"), None);
}

#[test]
fn name_table_insert_get_remove() {
    let mut table = NameTable::new();
    table.insert("a".to_string(), 1);
    table.insert("b".to_string(), 2);
    table.insert("a".to_string(), 3);
    assert_eq!(table.get("a"), Some(&3));
    assert_eq!(table.get("b"), Some(&2));
    assert!(table.contains("b"));
    assert_eq!(table.remove("b"), Some(2));
    assert_eq!(table.remove("b"), None);
    assert!(!table.contains("b"));
    assert_eq!(table.get("a"), Some(&3));
}

use birb::persisted;
use birb::registry::Registry;

#[test]
fn lib_test_registry_kv() {
    let mut registry = Registry::new();
    let index_value: &str = "test_value";
    let index_key: &str = "TEST/key";
    registry.store::<String>(index_key.to_string(), &index_value.to_string());
    let rsval = registry.get::<String>(index_key.to_string()).unwrap();
    assert_eq!(&rsval, &index_value);
}

#[test]
fn test_registry_kv() {
    let mut registry = persisted::Registry::new();
    let index_value: &str = "test_value";
    let index_key: &str = "TEST/key";
    registry.store::<String>(index_key.to_string(), &index_value.to_string());
    let return_value = registry.get::<String>(index_key.to_string()).unwrap();
    assert_eq!(&return_value, &index_value);
}

#[test]
fn registry_missing_key_is_none() {
    let registry = Registry::new();
    assert_eq!(registry.get::<String>("nothing".to_string()), None);
}

#[test]
fn registry_store_replaces_value() {
    let mut registry = Registry::new();
    registry.store("k".to_string(), &"first".to_string());
    registry.store("k".to_string(), &"second".to_string());
    assert_eq!(registry.get::<String>("k".to_string()), Some("second".to_string()));
}

#[test]
fn stored_text_is_json() {
    let mut registry = persisted::Registry::new();
    registry.store("k".to_string(), &"a\"b".to_string());
    let entries = registry.entries();
    assert_eq!(entries.len(), 1);
    assert_eq!(entries[0].0, "k");
    assert_eq!(entries[0].1, b"\"a\\\"b\"".to_vec());
}

#[test]
fn text_that_is_not_a_json_string_reads_as_none() {
    let mut registry = persisted::Registry::new();
    registry.replace_data(vec![("n".to_string(), b"42".to_vec())]);
    assert_eq!(registry.get::<String>("n".to_string()), None);
}

#[test]
fn replace_data_keeps_last_entry_per_key() {
    let mut registry = persisted::Registry::new();
    registry.replace_data(vec![
        ("a".to_string(), b"\"one\"".to_vec()),
        ("b".to_string(), b"\"two\"".to_vec()),
        ("a".to_string(), b"\"three\"".to_vec()),
    ]);
    assert_eq!(registry.entries().len(), 2);
    assert_eq!(registry.get::<String>("a".to_string()), Some("three".to_string()));
    assert_eq!(registry.get::<String>("b".to_string()), Some("two".to_string()));
}

#[test]
fn save_path_defaults() {
    let registry = persisted::Registry::new();
    assert_eq!(registry.save_path(None), "registry_store.json");
    assert_eq!(registry.save_path(Some("other.json")), "other.json");
}

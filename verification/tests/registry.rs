use drilltrack::registry::ClientRegistry;

#[test]
fn repeated_insertion_yields_one_member() {
    let mut reg = ClientRegistry::new();
    for _ in 0..5 {
        reg.add("10.0.0.5".to_string());
    }
    assert_eq!(reg.len(), 1);
    assert_eq!(reg.snapshot(), vec!["10.0.0.5".to_string()]);
}

#[test]
fn distinct_addresses_are_kept_in_discovery_order() {
    let mut reg = ClientRegistry::new();
    reg.add("10.0.0.5".to_string());
    reg.add("10.0.0.7".to_string());
    reg.add("10.0.0.5".to_string());
    reg.add("10.0.0.6".to_string());
    reg.add("10.0.0.7".to_string());
    assert_eq!(
        reg.snapshot(),
        vec!["10.0.0.5".to_string(), "10.0.0.7".to_string(), "10.0.0.6".to_string()]
    );
}

#[test]
fn membership_is_observable() {
    let mut reg = ClientRegistry::new();
    assert!(!reg.contains_addr(&"10.0.0.5".to_string()));
    reg.add("10.0.0.5".to_string());
    assert!(reg.contains_addr(&"10.0.0.5".to_string()));
    assert!(!reg.contains_addr(&"10.0.0.6".to_string()));
}

#[test]
fn new_registry_is_empty() {
    let reg = ClientRegistry::new();
    assert_eq!(reg.len(), 0);
    assert!(reg.snapshot().is_empty());
}

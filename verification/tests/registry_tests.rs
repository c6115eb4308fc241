use comport::registry::PortRegistry;
use std::rc::Rc;

#[test]
fn a_new_registry_holds_nothing() {
    let registry: PortRegistry<u32> = PortRegistry::new();
    assert!(!registry.contains("COM3"));
    assert!(!registry.contains(""));
    assert_eq!(registry.get("COM3"), None);
}

#[test]
fn an_inserted_port_is_contained() {
    let mut registry: PortRegistry<u32> = PortRegistry::new();
    assert_eq!(registry.insert("COM3".to_string(), 7), Ok(()));
    assert!(registry.contains("COM3"));
    assert_eq!(registry.get("COM3"), Some(&7));
    assert!(!registry.contains("COM4"));
    assert!(!registry.contains("com3"));
}

#[test]
fn a_name_is_not_inserted_twice() {
    let mut registry: PortRegistry<u32> = PortRegistry::new();
    assert_eq!(registry.insert("COM3".to_string(), 7), Ok(()));
    assert_eq!(registry.insert("COM3".to_string(), 8), Err(8));
    assert_eq!(registry.get("COM3"), Some(&7));
    assert_eq!(registry.remove("COM3"), Some(7));
    assert_eq!(registry.remove("COM3"), None);
}

#[test]
fn remove_hands_over_the_handle() {
    let mut registry: PortRegistry<String> = PortRegistry::new();
    assert_eq!(registry.insert("COM1".to_string(), "first".to_string()), Ok(()));
    assert_eq!(registry.insert("COM2".to_string(), "second".to_string()), Ok(()));
    assert_eq!(registry.insert("COM3".to_string(), "third".to_string()), Ok(()));
    assert_eq!(registry.remove("COM2"), Some("second".to_string()));
    assert!(!registry.contains("COM2"));
    assert_eq!(registry.get("COM1"), Some(&"first".to_string()));
    assert_eq!(registry.get("COM3"), Some(&"third".to_string()));
    assert_eq!(registry.remove("COM1"), Some("first".to_string()));
    assert_eq!(registry.remove("COM3"), Some("third".to_string()));
    assert_eq!(registry.get("COM3"), None);
}

#[test]
fn removing_an_absent_port_changes_nothing() {
    let mut registry: PortRegistry<u32> = PortRegistry::new();
    assert_eq!(registry.remove("COM3"), None);
    assert_eq!(registry.insert("COM3".to_string(), 1), Ok(()));
    assert_eq!(registry.remove("COM4"), None);
    assert_eq!(registry.get("COM3"), Some(&1));
}

#[test]
fn a_removed_name_can_be_inserted_again() {
    let mut registry: PortRegistry<u32> = PortRegistry::new();
    assert_eq!(registry.insert("COM3".to_string(), 1), Ok(()));
    assert_eq!(registry.remove("COM3"), Some(1));
    assert_eq!(registry.insert("COM3".to_string(), 2), Ok(()));
    assert_eq!(registry.get("COM3"), Some(&2));
}

#[test]
fn clear_removes_every_port() {
    let mut registry: PortRegistry<u32> = PortRegistry::new();
    for i in 0..20u32 {
        assert_eq!(registry.insert(format!("COM{}", i), i), Ok(()));
    }
    for i in 0..20u32 {
        assert_eq!(registry.get(&format!("COM{}", i)), Some(&i));
    }
    registry.clear();
    for i in 0..20u32 {
        assert!(!registry.contains(&format!("COM{}", i)));
    }
    assert_eq!(registry.insert("COM3".to_string(), 3), Ok(()));
    assert_eq!(registry.get("COM3"), Some(&3));
}

#[test]
fn clear_drops_the_handles() {
    let handle = Rc::new(());
    let mut registry: PortRegistry<Rc<()>> = PortRegistry::new();
    assert!(registry.insert("COM1".to_string(), Rc::clone(&handle)).is_ok());
    assert!(registry.insert("COM2".to_string(), Rc::clone(&handle)).is_ok());
    assert_eq!(Rc::strong_count(&handle), 3);
    registry.clear();
    assert_eq!(Rc::strong_count(&handle), 1);
}

#[test]
fn the_empty_name_is_a_name_like_any_other() {
    let mut registry: PortRegistry<u32> = PortRegistry::new();
    assert_eq!(registry.insert(String::new(), 5), Ok(()));
    assert!(registry.contains(""));
    assert!(!registry.contains(" "));
    assert_eq!(registry.remove(""), Some(5));
}

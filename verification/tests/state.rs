use rizonet_core::name_map::NameMap;
use rizonet_core::StateMap;
use std::any::TypeId;

#[test]
fn last_value_of_a_type_counts() {
    let mut map = StateMap::new();
    assert_eq!(map.get(TypeId::of::<String>()), None);
    map.insert(TypeId::of::<String>(), 1);
    map.insert(TypeId::of::<String>(), 2);
    assert_eq!(map.get(TypeId::of::<String>()), Some(&2));
}

#[test]
fn types_are_independent() {
    let mut map = StateMap::new();
    map.insert(TypeId::of::<String>(), 1);
    map.insert(TypeId::of::<Vec<u8>>(), 2);
    map.insert(TypeId::of::<String>(), 3);
    assert_eq!(map.get(TypeId::of::<Vec<u8>>()), Some(&2));
    assert_eq!(map.get(TypeId::of::<String>()), Some(&3));
    assert_eq!(map.get(TypeId::of::<Vec<u16>>()), None);
}

#[test]
fn new_state_is_empty() {
    let map: StateMap<u8> = StateMap::default();
    assert_eq!(map.get(TypeId::of::<u8>()), None);
}

#[test]
fn lookups_give_the_same_shared_value() {
    let mut map = StateMap::new();
    map.insert(TypeId::of::<u8>(), std::sync::Arc::new(std::sync::Mutex::new(1)));
    let a = map.get(TypeId::of::<u8>()).unwrap().clone();
    *a.lock().unwrap() = 2;
    let b = map.get(TypeId::of::<u8>()).unwrap().clone();
    assert!(std::sync::Arc::ptr_eq(&a, &b));
    assert_eq!(*b.lock().unwrap(), 2);
}

#[test]
fn cloned_names_are_equal() {
    let mut map = NameMap::new();
    map.insert("a".to_string(), "x".to_string());
    map.insert("b".to_string(), "y".to_string());
    let copy = map.clone();
    assert_eq!(copy.len(), 2);
    assert_eq!(copy.get("a").map(|s| s.as_str()), Some("x"));
    assert_eq!(copy.get("b").map(|s| s.as_str()), Some("y"));
}

#[test]
fn names_are_filed_once() {
    let mut map = NameMap::new();
    map.insert("a".to_string(), 1);
    map.insert("b".to_string(), 2);
    map.insert("a".to_string(), 3);
    assert_eq!(map.len(), 2);
    assert_eq!(map.get("a"), Some(&3));
    assert_eq!(map.get("b"), Some(&2));
    assert_eq!(map.get("c"), None);
    assert_eq!(map.entry(0).0, "a");
    assert_eq!(map.entry(1).0, "b");
}

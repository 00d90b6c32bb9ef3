use state_machine::account_map::AccountMap;

#[test]
fn empty_map_holds_nothing() {
    let map: AccountMap<u32> = AccountMap::new();
    assert_eq!(map.get(&"alice".to_string()), None);
}

#[test]
fn insert_then_get() {
    let mut map: AccountMap<u128> = AccountMap::new();
    map.insert("alice".to_string(), 1);
    map.insert("bob".to_string(), 2);
    assert_eq!(map.get(&"alice".to_string()), Some(1));
    assert_eq!(map.get(&"bob".to_string()), Some(2));
    assert_eq!(map.get(&"charlie".to_string()), None);
}

#[test]
fn insert_replaces_the_stored_value() {
    let mut map: AccountMap<u128> = AccountMap::new();
    map.insert("alice".to_string(), 1);
    map.insert("bob".to_string(), 2);
    map.insert("alice".to_string(), 3);
    assert_eq!(map.get(&"alice".to_string()), Some(3));
    assert_eq!(map.get(&"bob".to_string()), Some(2));
}

#[test]
fn a_stored_zero_is_stored() {
    let mut map: AccountMap<u32> = AccountMap::new();
    map.insert("alice".to_string(), 0);
    assert_eq!(map.get(&"alice".to_string()), Some(0));
}

#[test]
fn accounts_differ_by_every_character() {
    let mut map: AccountMap<u32> = AccountMap::new();
    map.insert("alice".to_string(), 1);
    assert_eq!(map.get(&"Alice".to_string()), None);
    assert_eq!(map.get(&"alice ".to_string()), None);
    assert_eq!(map.get(&"alic".to_string()), None);
}

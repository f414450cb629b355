use rust_state_machine::storage::StorageMap;

#[test]
fn empty_map_holds_nothing() {
    let map: StorageMap<u32> = StorageMap::new();
    assert_eq!(map.get(&String::from("alice")), None);
}

#[test]
fn insert_adds_and_replaces() {
    let mut map: StorageMap<u32> = StorageMap::new();
    let alice = String::from("alice");
    let bob = String::from("bob");

    map.insert(alice.clone(), 1);
    map.insert(bob.clone(), 2);
    assert_eq!(map.get(&alice), Some(&1));
    assert_eq!(map.get(&bob), Some(&2));

    map.insert(alice.clone(), 3);
    assert_eq!(map.get(&alice), Some(&3));
    assert_eq!(map.get(&bob), Some(&2));
}

#[test]
fn remove_forgets_one_key() {
    let mut map: StorageMap<u32> = StorageMap::new();
    let alice = String::from("alice");
    let bob = String::from("bob");
    let charlie = String::from("charlie");
    map.insert(alice.clone(), 1);
    map.insert(bob.clone(), 2);
    map.insert(charlie.clone(), 3);

    map.remove(&bob);
    assert_eq!(map.get(&alice), Some(&1));
    assert_eq!(map.get(&bob), None);
    assert_eq!(map.get(&charlie), Some(&3));

    // Removing what is not there changes nothing.
    map.remove(&bob);
    assert_eq!(map.get(&alice), Some(&1));
    assert_eq!(map.get(&charlie), Some(&3));

    map.insert(bob.clone(), 4);
    assert_eq!(map.get(&bob), Some(&4));
}

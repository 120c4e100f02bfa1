use glib::hashtable::HashTable;
use glib::object::Object;
use std::collections::HashMap;

#[test]
fn test_all_features() {
    let mut table = HashTable::<String, String>::new();
    assert!(table.is_empty());
    assert_eq!(table.len(), 0);
    assert_eq!(table.get("nonexistent"), None);
    assert!(!table.contains_key("nonexistent"));

    let default_table = HashTable::<String, String>::default();
    assert!(default_table.is_empty());

    table.insert("key1".to_string(), "value1".to_string());
    assert!(!table.is_empty());
    assert_eq!(table.len(), 1);
    assert_eq!(table.get("key1"), Some("value1".to_string()));
    assert!(table.contains_key("key1"));

    table.insert("key2".to_string(), "value2".to_string());
    table.insert("key3".to_string(), "value3".to_string());
    assert_eq!(table.len(), 3);
    assert_eq!(table.get("key2"), Some("value2".to_string()));
    assert_eq!(table.get("key3"), Some("value3".to_string()));
    assert!(table.contains_key("key2"));
    assert!(table.contains_key("key3"));

    let was_new = table.replace("key1".to_string(), "replaced_value1".to_string());
    assert!(!was_new);
    assert_eq!(table.len(), 3);
    assert_eq!(table.get("key1"), Some("replaced_value1".to_string()));

    let was_new = table.replace("key4".to_string(), "value4".to_string());
    assert!(was_new);
    assert_eq!(table.len(), 4);

    assert!(table.remove("key2"));
    assert_eq!(table.len(), 3);
    assert_eq!(table.get("key2"), None);
    assert!(!table.contains_key("key2"));
    assert!(!table.remove("key2"));

    table.remove_all();
    table.insert("a".to_string(), "x".to_string());
    table.insert("b".to_string(), "y".to_string());
    table.insert("c".to_string(), "z".to_string());

    let mut collected = HashMap::new();
    for (k, v) in table.iter() {
        collected.insert(k, v);
    }
    assert_eq!(collected.len(), 3);
    assert_eq!(collected.get("a"), Some(&"x".to_string()));
    assert_eq!(collected.get("b"), Some(&"y".to_string()));
    assert_eq!(collected.get("c"), Some(&"z".to_string()));

    let keys = table.keys();
    let values = table.values();
    assert_eq!(keys.len(), 3);
    assert_eq!(values.len(), 3);
    assert!(keys.contains(&"a".to_string()));
    assert!(keys.contains(&"b".to_string()));
    assert!(keys.contains(&"c".to_string()));
    assert!(values.contains(&"x".to_string()));
    assert!(values.contains(&"y".to_string()));
    assert!(values.contains(&"z".to_string()));

    table.remove_all();
    assert!(table.is_empty());
    assert_eq!(table.len(), 0);
    assert!(!table.contains_key("key1"));

    assert_eq!(table.iter().len(), 0);

    let empty_keys = table.keys();
    let empty_values = table.values();
    assert_eq!(empty_keys.len(), 0);
    assert_eq!(empty_values.len(), 0);

    let mut map = HashMap::new();
    map.insert("a".to_string(), "x".to_string());
    map.insert("b".to_string(), "y".to_string());
    map.insert("c".to_string(), "z".to_string());

    let table2 = HashTable::from_pairs(map.into_iter().collect());
    assert_eq!(table2.len(), 3);
    assert_eq!(table2.get("a"), Some("x".to_string()));
    assert_eq!(table2.get("b"), Some("y".to_string()));
    assert_eq!(table2.get("c"), Some("z".to_string()));

    let map2: HashMap<String, String> = table2.iter().into_iter().collect();
    assert_eq!(map2.len(), 3);
    assert_eq!(map2.get("a"), Some(&"x".to_string()));

    let data = vec![
        ("k1".to_string(), "v1".to_string()),
        ("k2".to_string(), "v2".to_string()),
    ];
    let table3: HashTable<String, String> = HashTable::from_pairs(data);
    assert_eq!(table3.len(), 2);
    assert_eq!(table3.get("k1"), Some("v1".to_string()));

    let table4 = HashTable::from_pairs(vec![
        ("x".to_string(), "1".to_string()),
        ("y".to_string(), "2".to_string()),
    ]);
    let mut count = 0;
    for (k, v) in table4.iter() {
        assert!(k == "x".to_string() || k == "y".to_string());
        assert!(v == "1".to_string() || v == "2".to_string());
        count += 1;
    }
    assert_eq!(count, 2);

    let mut table5 = HashTable::<String, String>::new();
    table5.insert("a".to_string(), "1".to_string());
    table5.extend(vec![
        ("b".to_string(), "2".to_string()),
        ("c".to_string(), "3".to_string()),
    ]);
    assert_eq!(table5.len(), 3);
    assert_eq!(table5.get("b"), Some("2".to_string()));
}

#[test]
fn test_primitive_type() {
    let mut table = HashTable::<i32, i32>::new();
    assert!(table.is_empty());

    table.insert(1, 100);
    table.insert(2, 200);
    table.insert(3, 300);
    assert_eq!(table.len(), 3);
    assert_eq!(table.get(&1), Some(100));
    assert_eq!(table.get(&2), Some(200));
    assert!(table.contains_key(&1));
    assert!(!table.contains_key(&999));

    assert!(table.remove(&2));
    assert_eq!(table.len(), 2);
    assert!(!table.contains_key(&2));
}

#[test]
fn test_object_type() {
    let mut table = HashTable::<Object, Object>::new();
    assert!(table.is_empty());

    let obj1 = Object::new(&[]).unwrap();
    let obj2 = Object::new(&[]).unwrap();
    let obj3 = Object::new(&[]).unwrap();

    // Test insert and get
    table.insert(obj1.clone(), obj2.clone());
    assert_eq!(table.len(), 1);
    assert!(table.contains_key(&obj1));
    assert_eq!(table.get(&obj1).unwrap(), obj2);

    // Test multiple inserts
    table.insert(obj2.clone(), obj3.clone());
    assert_eq!(table.len(), 2);
    assert_eq!(table.get(&obj2).unwrap(), obj3);

    // Test that objects are compared by pointer identity
    let obj1_clone = obj1.clone();
    assert_eq!(table.get(&obj1_clone).unwrap(), obj2);

    // Test remove
    assert!(table.remove(&obj1));
    assert_eq!(table.len(), 1);
    assert!(!table.contains_key(&obj1));
    assert!(!table.remove(&obj1)); // Already removed
}

#[test]
fn test_mixed_types() {
    // Test HashTable<i32, String>
    let mut table1 = HashTable::<i32, String>::new();
    table1.insert(1, "one".to_string());
    assert_eq!(table1.get(&1), Some("one".to_string()));

    // Test HashTable<String, i32>
    let mut table2 = HashTable::<String, i32>::new();
    table2.insert("one".to_string(), 1);
    assert_eq!(table2.get("one"), Some(1));

    // Test HashTable<i32, Object>
    let obj1 = Object::new(&[]).unwrap();
    let mut table3 = HashTable::<i32, Object>::new();
    table3.insert(1, obj1.clone());
    assert_eq!(table3.get(&1).unwrap(), obj1);

    // Test HashTable<Object, i32>
    let key1 = Object::new(&[]).unwrap();
    let mut table4 = HashTable::<Object, i32>::new();
    table4.insert(key1.clone(), 100);
    assert_eq!(table4.get(&key1), Some(100));

    // Test HashTable<String, Object>
    let obj2 = Object::new(&[]).unwrap();
    let mut table5 = HashTable::<String, Object>::new();
    table5.insert("key1".to_string(), obj2.clone());
    assert_eq!(table5.get("key1").unwrap(), obj2);

    // Test HashTable<Object, String>
    let key2 = Object::new(&[]).unwrap();
    let mut table6 = HashTable::<Object, String>::new();
    table6.insert(key2.clone(), "value".to_string());
    assert_eq!(table6.get(&key2), Some("value".to_string()));
}

#[test]
fn distinct_objects_are_distinct_keys() {
    let a = Object::new(&[]).unwrap();
    let b = Object::new(&[]).unwrap();
    assert!(a != b);
    assert!(a == a.clone());
    let mut table = HashTable::<Object, u8>::new();
    table.insert(a.clone(), 1);
    assert!(!table.contains_key(&b));
    assert_eq!(table.get(&b), None);
}

#[test]
fn zero_values_read_as_missing() {
    let mut table = HashTable::<u32, u32>::new();
    table.insert(5, 0);
    assert!(table.contains_key(&5));
    assert_eq!(table.get(&5), None);
    assert_eq!(table.values().len(), 0);
    assert_eq!(table.keys(), vec![5]);
    table.insert(6, 1);
    assert_eq!(table.values(), vec![1]);
    assert_eq!(table.len(), 2);
}

#[test]
fn insert_keeps_one_entry_per_key() {
    let mut table = HashTable::<u8, i64>::new();
    table.insert(1, -1);
    table.insert(1, -2);
    assert_eq!(table.len(), 1);
    assert_eq!(table.get(&1), Some(-2));
    assert!(!table.replace(1, -3));
    assert_eq!(table.get(&1), Some(-3));
    assert!(table.replace(2, 4));
    assert_eq!(table.len(), 2);
}

#[test]
fn iter_gives_every_pair_with_a_value() {
    let mut table = HashTable::<u32, u32>::new();
    table.insert(1, 10);
    table.insert(2, 0);
    table.insert(3, 30);
    assert_eq!(table.iter(), vec![(1, 10), (3, 30)]);
}

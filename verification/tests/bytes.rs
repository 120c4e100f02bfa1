use glib::bytes::Bytes;
use std::collections::HashSet;

#[test]
fn bytes_eq() {
    let abc: &[u8] = b"abc";
    let def: &[u8] = b"def";
    let a1 = Bytes::from(abc);
    let a2 = Bytes::from(abc);
    let d = Bytes::from(def);
    assert_eq!(a1, a2);
    assert_eq!(def, d);
    assert!(a1 != d);
    assert!(a1 != def);
}

#[test]
fn ord() {
    let abc: &[u8] = b"abc";
    let def: &[u8] = b"def";
    let a = Bytes::from(abc);
    let d = Bytes::from(def);
    assert!(a < d);
    assert!(a < def);
    assert!(abc < d);
    assert!(d > a);
    assert!(d > abc);
    assert!(def > a);
}

#[test]
fn hash() {
    let b1 = Bytes::from(b"this is a test");
    let b2 = Bytes::from(b"this is a test");
    let b3 = Bytes::from(b"test");
    let mut set = HashSet::new();
    set.insert(b1);
    assert!(set.contains(&b2));
    assert!(!set.contains(&b3));
}

#[test]
fn from_static() {
    let b1 = Bytes::from_static(b"this is a test");
    let b2 = Bytes::from(b"this is a test");
    assert_eq!(b1, b2);
}

#[test]
fn from_owned() {
    let b = Bytes::from_owned(vec![1, 2, 3]);
    let expected: &[u8] = &[1u8, 2u8, 3u8];
    assert_eq!(b, expected);
}

#[test]
fn bytes_prefix_orders_first() {
    let short: &[u8] = b"ab";
    let long: &[u8] = b"abc";
    assert!(Bytes::from(short) < Bytes::from(long));
    assert!(Bytes::from(long) > short);
    assert_eq!(Bytes::new(b"").len(), 0);
    assert!(Bytes::new(b"").is_empty());
    assert!(Bytes::new(b"") < Bytes::new(b"\x00"));
}

#[test]
fn bytes_compare_is_consistent_with_eq() {
    let x = Bytes::from(&vec![5u8, 6, 7]);
    let y = Bytes::new(&[5u8, 6, 7]);
    assert_eq!(x.partial_cmp(&y), Some(std::cmp::Ordering::Equal));
    assert_eq!(x, vec![5u8, 6, 7]);
    assert_eq!(glib::bytes::bytes_compare(b"b", b"a"), std::cmp::Ordering::Greater);
    assert_eq!(glib::bytes::bytes_compare(b"a", b"b"), std::cmp::Ordering::Less);
    assert_eq!(glib::bytes::compare_sign(b"same", b"same"), 0);
    assert_eq!(x.as_slice(), &[5u8, 6, 7]);
}

use glib::gstring_builder::GStringBuilder;
use std::fmt::Write;

#[test]
fn append() {
    let mut s = GStringBuilder::new("");
    s.append("Hello");
    s.append(" ");
    s.append("there!");
    assert_eq!(&*s, "Hello there!");
    assert_eq!(s.into_string().as_str(), "Hello there!");
}

#[test]
fn prepend() {
    let mut s = GStringBuilder::new("456");
    s.prepend("123");
    assert_eq!(&*s, "123456");
}

#[test]
fn default() {
    let s1: GStringBuilder = Default::default();
    assert_eq!(&*s1, "");
}

#[test]
fn display() {
    let s: GStringBuilder = GStringBuilder::new("This is a string.");
    assert_eq!(&s.to_string(), "This is a string.");
}

#[test]
fn gstring_builder_eq() {
    let a1 = GStringBuilder::new("a");
    let a2 = GStringBuilder::new("a");
    let b = GStringBuilder::new("b");
    assert_eq!(a1, a2);
    assert_ne!(a1, b);
    assert_ne!(a2, b);
}

#[test]
fn write() {
    let mut s = GStringBuilder::default();
    s.write_str(&format!("bla bla {} bla", 123)).unwrap();
    assert_eq!(&*s, "bla bla 123 bla");
}

#[test]
fn gstring_builder_chars() {
    let mut s = GStringBuilder::new("b");
    s.append_c('c');
    s.prepend_c('a');
    assert_eq!(s.as_str(), "abc");
    s.write_char('d').unwrap();
    assert_eq!(s.as_str(), "abcd");
}

#[test]
fn gstring_builder_compares_with_str() {
    let s = GStringBuilder::new("abc");
    assert!(s == *"abc");
    assert!(*"abc" == s);
    assert!(s != *"abd");
    assert!(GStringBuilder::new("a") < GStringBuilder::new("b"));
}

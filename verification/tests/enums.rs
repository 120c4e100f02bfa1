use glib::enums::{EnumClass, EnumValue, FlagsClass, FlagsValue, UserDirectory};
use glib::types::{Type, TypeLineage};
use glib::value::{Value, ValueData};

fn color_class() -> EnumClass {
    let values = vec![
        EnumValue::new(0, "COLOR_RED".to_string(), "red".to_string()),
        EnumValue::new(1, "COLOR_GREEN".to_string(), "green".to_string()),
        EnumValue::new(1, "COLOR_LIME".to_string(), "lime".to_string()),
    ];
    EnumClass::new(TypeLineage::new(Type(500), vec![Type::enum_()]), values).unwrap()
}

fn mode_class() -> FlagsClass {
    let values = vec![
        FlagsValue::new(0, "MODE_NONE".to_string(), "none".to_string()),
        FlagsValue::new(1, "MODE_READ".to_string(), "read".to_string()),
        FlagsValue::new(2, "MODE_WRITE".to_string(), "write".to_string()),
        FlagsValue::new(3, "MODE_BOTH".to_string(), "both".to_string()),
    ];
    FlagsClass::new(TypeLineage::new(Type(600), vec![Type::flags()]), values).unwrap()
}

#[test]
fn enum_class_lookups() {
    let c = color_class();
    assert_eq!(c.type_(), Type(500));
    assert_eq!(c.values().len(), 3);
    assert_eq!(c.value(1).unwrap().name(), "COLOR_GREEN");
    assert!(c.value(7).is_none());
    assert_eq!(c.value_by_name("COLOR_LIME").unwrap().value(), 1);
    assert_eq!(c.value_by_nick("red").unwrap().name(), "COLOR_RED");
    assert!(c.value_by_nick("blue").is_none());
    let v = c.to_value_by_nick("green").unwrap();
    assert_eq!(v.type_(), Type(500));
    assert_eq!(EnumValue::from_value(&v, &c).unwrap().nick(), "green");
    assert!(c.to_value(9).is_none());
    assert!(c.value(1).unwrap() == c.value_by_name("COLOR_LIME").unwrap());
}

#[test]
fn enum_class_needs_enum_type() {
    assert!(EnumClass::new(TypeLineage::new(Type(500), vec![]), vec![]).is_none());
    assert!(FlagsClass::new(TypeLineage::new(Type(600), vec![Type::enum_()]), vec![]).is_none());
}

#[test]
fn flags_first_value() {
    let c = mode_class();
    assert_eq!(c.value(0).unwrap().nick(), "none");
    assert_eq!(c.value(2).unwrap().nick(), "write");
    assert_eq!(c.value(3).unwrap().nick(), "read");
    assert_eq!(c.value(6).unwrap().nick(), "write");
    assert!(c.value(4).is_none());
}

#[test]
fn flags_set_and_unset() {
    let c = mode_class();
    let v = c.to_value(0).unwrap();
    let v = c.set_by_nick(v, "read").unwrap();
    assert!(c.is_set(&v, 1));
    assert!(!c.is_set(&v, 2));
    assert!(c.is_set_by_name(&v, "MODE_READ"));
    let v = c.set(v, 2).unwrap();
    assert!(c.is_set_by_nick(&v, "write"));
    let v = c.unset_by_name(v, "MODE_READ").unwrap();
    assert!(!c.is_set(&v, 1));
    let v = c.unset(v, 2).unwrap();
    assert!(!c.is_set(&v, 3));
    let v = c.set_by_name(v, "MODE_BOTH").unwrap();
    assert!(c.is_set(&v, 1) && c.is_set(&v, 2));
    let v = c.unset_by_nick(v, "both").unwrap();
    assert!(!c.is_set(&v, 3));
    assert!(c.set_by_nick(v, "missing").is_err());
    let foreign = Value::new(TypeLineage::new(Type::u32(), vec![]), ValueData::U32(1));
    let back = c.set(foreign, 1).unwrap_err();
    assert_eq!(back.type_(), Type::u32());
    assert!(!c.is_set(&back, 1));
}

#[test]
fn flags_builder() {
    let c = mode_class();
    let v = c.builder().set(1).set_by_nick("write").build().unwrap();
    assert!(c.is_set(&v, 3));
    let listed = FlagsValue::from_value(&v, &c);
    let nicks: Vec<&str> = listed.iter().map(|fv| fv.nick()).collect();
    assert_eq!(nicks, vec!["read", "write", "both"]);
    let w = c.builder_with_value(v).unwrap().unset_by_name("MODE_WRITE").build().unwrap();
    assert!(c.is_set(&w, 1) && !c.is_set(&w, 2));
    assert!(c.builder().set_by_name("nope").set(1).build().is_none());
    let foreign = Value::new(TypeLineage::new(Type::i32(), vec![]), ValueData::I32(1));
    assert!(c.builder_with_value(foreign).is_none());
    assert!(c.to_value_by_name("MODE_WRITE").is_some());
    assert!(c.to_value_by_nick("zzz").is_none());
    assert_eq!(c.value_by_name("MODE_NONE").unwrap().value(), 0);
}

#[test]
fn user_directory_numbers() {
    assert_eq!(UserDirectory::Documents.into_glib(), 1);
    assert_eq!(UserDirectory::PublicShare.into_glib(), 5);
}

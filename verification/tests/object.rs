use glib::object::{prepare_get_property, prepare_set_properties, prepare_set_property, Class, Object, ObjectClass};
use glib::param_spec::ParamSpec;
use glib::param_spec_builder::{ParamSpecBuilderExt, ParamSpecInt, ParamSpecString, ParamSpecUChar, ParamSpecUnichar};
use glib::types::{Type, TypeLineage};
use glib::value::{ToValue, Value};

#[test]
fn new() {
    let obj: Object = Object::new(&[]).unwrap();
    drop(obj);
}

#[test]
fn data() {
    let mut obj: Object = Object::new(&[]).unwrap();
    obj.set_data::<String>("foo", "hello".into());
    let data = obj.data::<String>("foo").unwrap();
    assert_eq!(data.as_str(), "hello");
    let data2 = obj.steal_data::<String>("foo").unwrap();
    assert_eq!(data2, "hello");
}

#[test]
fn data_is_gone_after_steal_and_typed() {
    let mut obj = Object::new(&[]).unwrap();
    obj.set_data("n", 7i32);
    assert_eq!(obj.data::<String>("n"), None);
    assert_eq!(obj.data::<i32>("n"), Some(7));
    obj.set_data("n", 8i32);
    assert_eq!(obj.data::<i32>("n"), Some(8));
    assert_eq!(obj.steal_data::<i32>("n"), Some(8));
    assert_eq!(obj.data::<i32>("n"), None);
    assert_eq!(obj.steal_data::<i32>("n"), None);
}

#[test]
fn object_new_refuses_unknown_property() {
    let v = 1i32.to_value();
    assert!(Object::new(&[("missing", v)]).is_err());
}

fn widget_class() -> Class<Object> {
    let count = ParamSpecInt::builder("count").minimum(0).maximum(10).build();
    let label = ParamSpecString::builder("label").build();
    let lineage = TypeLineage::new(Type(1000), vec![Type::object()]);
    Class::new(lineage, true, false, vec![count, label])
}

#[test]
fn class_property_lookup() {
    let class = widget_class();
    assert_eq!(class.property_type("count"), Some(Type::i32()));
    assert_eq!(class.property_type("label"), Some(Type::string()));
    assert!(class.has_property("count", Some(Type::i32())));
    assert!(!class.has_property("count", Some(Type::string())));
    assert!(class.has_property("label", None));
    assert!(!class.has_property("nothing", None));
    assert!(class.find_property("count").is_some());
    let base: ObjectClass = Class::object_class();
    assert_eq!(base.property_type("count"), None);
}

#[test]
fn builder_builds_with_properties() {
    let class = widget_class();
    let obj = Object::builder_with_type(Type(1000))
        .property("count", 3i32)
        .property("label", "hi".to_string())
        .build(&class)
        .unwrap();
    assert_eq!(obj.type_(), Type(1000));
    assert!(obj.is_a(Type::object()));
}

#[test]
fn builder_refuses_wrong_type_or_value() {
    let class = widget_class();
    assert!(Object::builder_with_type(Type(1000)).property("count", "x".to_string()).build(&class).is_err());
    assert!(Object::builder_with_type(Type(1000)).property("count", 11i32).build(&class).is_err());
    assert!(Object::builder_with_type(Type(2000)).build(&class).is_err());
    let abstract_class: Class<Object> =
        Class::new(TypeLineage::new(Type(1000), vec![Type::object()]), true, true, vec![]);
    assert!(Object::builder_with_type(Type(1000)).build(&abstract_class).is_err());
}

#[test]
fn builder_of_base_object() {
    let base: ObjectClass = Class::object_class();
    let obj = Object::builder::<Object>().build(&base).unwrap();
    assert_eq!(obj.type_(), Type::object());
}

#[test]
fn value_of_param_spec_type_checks() {
    let v: Value = 5u32.to_value();
    assert_eq!(v.type_(), Type::u32());
    let p: ParamSpec = ParamSpecInt::builder("x").build();
    assert_eq!(p.value_type(), Type::i32());
}

#[test]
fn set_and_get_property_checks() {
    let class = widget_class();
    let (p, v) = prepare_set_property(&class, "count", &4i32.to_value()).unwrap();
    assert_eq!(p.name(), "count");
    assert_eq!(v.type_(), Type::i32());
    assert!(prepare_set_property(&class, "count", &40i32.to_value()).is_err());
    assert!(prepare_set_property(&class, "nothing", &4i32.to_value()).is_err());
    assert_eq!(prepare_get_property(&class, "label").unwrap().name(), "label");
    assert!(prepare_get_property(&class, "nothing").is_err());
    let params = prepare_set_properties(&class, &[("count", 2i32.to_value()), ("label", "x".to_string().to_value())]).unwrap();
    assert_eq!(params.len(), 2);
    assert_eq!(params.as_slice()[1].0, "label");
    assert!(!params.is_empty());
    assert!(prepare_set_properties(&class, &[("count", 2i32.to_value()), ("labels", 1i32.to_value())]).is_err());
}

#[test]
fn construct_only_properties_are_set_at_construction_only() {
    let once = ParamSpecInt::builder("once").construct_only().build();
    let class: Class<Object> = Class::new(TypeLineage::new(Type(1001), vec![Type::object()]), true, false, vec![once]);
    assert!(prepare_set_property(&class, "once", &1i32.to_value()).is_err());
    let obj = Object::builder_with_type(Type(1001)).property("once", 1i32).build(&class);
    assert!(obj.is_ok());
}

#[test]
fn write_only_properties_are_not_readable() {
    let w = ParamSpecInt::builder("secret").write_only().build();
    let class: Class<Object> = Class::new(TypeLineage::new(Type(1002), vec![Type::object()]), true, false, vec![w]);
    assert!(prepare_get_property(&class, "secret").is_err());
}

#[test]
fn small_integer_properties_are_range_checked() {
    let level = ParamSpecUChar::builder("level").maximum(10).build();
    let class: Class<Object> = Class::new(TypeLineage::new(Type(1003), vec![Type::object()]), true, false, vec![level]);
    assert!(prepare_set_property(&class, "level", &7u8.to_value()).is_ok());
    assert!(prepare_set_property(&class, "level", &20u8.to_value()).is_err());
    assert!(prepare_set_property(&class, "level", &7i8.to_value()).is_err());
}

#[test]
fn unichar_properties_take_scalar_values() {
    let letter = ParamSpecUnichar::builder("letter", 'a').build();
    let lax = ParamSpecUnichar::builder("loose", 'b').lax_validation().build();
    let class: Class<Object> = Class::new(TypeLineage::new(Type(1004), vec![Type::object()]), true, false, vec![letter, lax]);
    assert!(prepare_set_property(&class, "letter", &0x41u32.to_value()).is_ok());
    assert!(prepare_set_property(&class, "letter", &0xD800u32.to_value()).is_err());
    assert!(prepare_set_property(&class, "letter", &0x11_0000u32.to_value()).is_err());
    let (_, v) = prepare_set_property(&class, "loose", &0xD800u32.to_value()).unwrap();
    assert!(matches!(v.data(), glib::value::ValueData::U32(0)));
    let p = ParamSpecUnichar::builder("c", 'z').default_value('y').build().downcast::<ParamSpecUnichar>().unwrap();
    assert_eq!(p.default_value(), 'y');
    assert_eq!(p.value_type(), Type::u32());
}

#[test]
fn error_messages_name_the_property() {
    let class = widget_class();
    assert_eq!(prepare_get_property(&class, "nothing").err().unwrap().message, "property 'nothing' not found");
    assert_eq!(
        prepare_set_property(&class, "count", &"x".to_string().to_value()).err().unwrap().message,
        "property 'count' can't be set from the given type"
    );
    let w = ParamSpecInt::builder("secret").write_only().build();
    let c2: Class<Object> = Class::new(TypeLineage::new(Type(1003), vec![Type::object()]), true, false, vec![w]);
    assert_eq!(prepare_get_property(&c2, "secret").err().unwrap().message, "property 'secret' is not readable");
}

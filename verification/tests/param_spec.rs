use glib::param_flags::ParamFlags;
use glib::param_spec::{is_canonical_pspec_name, ParamSpec};
use glib::param_spec_builder::{ParamSpecChar, ParamSpecLong, ParamSpecUChar, ParamSpecULong};
use glib::param_spec_builder::{
    HasParamSpec, ParamSpecBoolean, ParamSpecBuilderExt, ParamSpecInt, ParamSpecOverride, ParamSpecString,
    ParamSpecUInt,
};

#[test]
fn test_param_spec_int_builder() {
    let pspec = ParamSpecInt::builder("name")
        .blurb("Simple int parameter")
        .minimum(-2)
        .explicit_notify()
        .build();

    assert_eq!(pspec.name(), "name");
    assert_eq!(pspec.nick(), "name");
    assert_eq!(pspec.blurb(), Some("Simple int parameter"));
    assert_eq!(pspec.flags(), ParamFlags::readwrite().union(ParamFlags::explicit_notify()));
}

#[test]
fn test_param_spec_builder_flags() {
    let pspec = ParamSpecInt::builder("name")
        .minimum(-2)
        .read_only()
        .build()
        .downcast::<ParamSpecInt>()
        .unwrap();
    assert_eq!(pspec.minimum(), -2);
    assert_eq!(pspec.flags(), ParamFlags::readable());

    let pspec = ParamSpecInt::builder("name")
        .read_only()
        .write_only()
        .minimum(-2)
        .build()
        .downcast::<ParamSpecInt>()
        .unwrap();
    assert_eq!(pspec.minimum(), -2);
    assert_eq!(pspec.flags(), ParamFlags::writable());

    let pspec = ParamSpecInt::builder("name")
        .read_only()
        .write_only()
        .readwrite()
        .minimum(-2)
        .build()
        .downcast::<ParamSpecInt>()
        .unwrap();
    assert_eq!(pspec.minimum(), -2);
    assert_eq!(pspec.flags(), ParamFlags::readwrite());
}

#[test]
fn test_has_param_spec() {
    let pspec = <i32 as HasParamSpec>::param_spec_builder("name")
        .blurb("Simple int parameter")
        .minimum(-2)
        .explicit_notify()
        .build();

    assert_eq!(pspec.name(), "name");
    assert_eq!(pspec.blurb(), Some("Simple int parameter"));
    assert_eq!(pspec.flags(), ParamFlags::readwrite().union(ParamFlags::explicit_notify()));
}

#[test]
fn int_builder_defaults_to_full_range() {
    let p = ParamSpecInt::builder("full").build().downcast::<ParamSpecInt>().unwrap();
    assert_eq!(p.minimum(), i32::MIN);
    assert_eq!(p.maximum(), i32::MAX);
    assert_eq!(p.default_value(), 0);
}

#[test]
fn downcast_to_other_kind_fails() {
    let p: ParamSpec = ParamSpecBoolean::builder("flag").default_value(true).build();
    assert!(p.is::<ParamSpecBoolean>());
    assert!(!p.is::<ParamSpecInt>());
    assert!(p.downcast::<ParamSpecUInt>().is_err());
}

#[test]
fn nick_and_blurb() {
    let p = ParamSpecString::builder("text").nick("Text").default_value(Some("x")).build();
    assert_eq!(p.nick(), "Text");
    assert_eq!(p.blurb(), None);
    let q = ParamSpecString::builder("other").build();
    assert_eq!(q.nick(), "other");
}

#[test]
fn canonical_names() {
    assert!(is_canonical_pspec_name("name"));
    assert!(is_canonical_pspec_name("a-b1"));
    assert!(is_canonical_pspec_name(""));
    assert!(!is_canonical_pspec_name("1abc"));
    assert!(!is_canonical_pspec_name("-abc"));
    assert!(!is_canonical_pspec_name("a_b"));
    assert!(ParamSpec::is_valid_name("a_b"));
    assert!(!ParamSpec::is_valid_name("1ab"));
}

#[test]
fn flags_operations() {
    let rw = ParamFlags::readwrite();
    assert!(rw.contains(ParamFlags::readable()));
    assert!(rw.contains(ParamFlags::writable()));
    assert_eq!(rw.difference(ParamFlags::writable()), ParamFlags::readable());
    assert_eq!(rw.bits(), 3);
    assert!(ParamFlags::empty().is_empty());
    assert_eq!(ParamFlags::default(), rw);
    assert_eq!(ParamFlags::explicit_notify().bits(), 0x4000_0000);
    assert_eq!(ParamFlags::deprecated().bits(), 0x8000_0000);
}

#[test]
fn flags_read_from_c_drop_unknown_bits() {
    assert_eq!(ParamFlags::from_glib(0xE3).bits(), 3);
    assert_eq!(ParamFlags::from_glib(0x4000_0100).bits(), 0x4000_0100);
    assert_eq!(ParamFlags::readwrite().into_glib(), 3);
}

#[test]
fn override_takes_target_flags_and_type() {
    let base = ParamSpecUInt::builder("size").read_only().build();
    let o = ParamSpecOverride::builder("size", &base).build();
    assert_eq!(o.flags(), ParamFlags::readable());
    assert_eq!(o.stored_flags().bits(), 1 | 224);
    assert_eq!(o.value_type(), base.value_type());
    assert_eq!(o.nick(), "size");
}

#[test]
fn typed_getters() {
    let b = ParamSpecBoolean::builder("on").default_value(true).build().downcast::<ParamSpecBoolean>().unwrap();
    assert!(b.default_value());
    let s = ParamSpecString::builder("text").default_value(Some("hi")).build().downcast::<ParamSpecString>().unwrap();
    assert_eq!(s.default_value(), Some("hi"));
    let u = ParamSpecUInt::builder("n").minimum(1).maximum(9).default_value(4).build().downcast::<ParamSpecUInt>().unwrap();
    assert_eq!((u.minimum(), u.maximum(), u.default_value()), (1, 9, 4));
    let base = ParamSpecInt::builder("size").build();
    let o = ParamSpecOverride::builder("size", &base).build().downcast::<ParamSpecOverride>().unwrap();
    assert_eq!(o.overridden().name(), "size");
    assert_eq!(o.overridden().value_type(), base.value_type());
}

#[test]
fn small_and_long_integer_builders() {

    let c = ParamSpecChar::builder("c").minimum(-5).maximum(5).build().downcast::<ParamSpecChar>().unwrap();
    assert_eq!((c.minimum(), c.maximum(), c.default_value()), (-5, 5, 0));
    assert_eq!(c.value_type(), glib::types::Type::i8());
    let u = ParamSpecUChar::builder("u").maximum(10).build().downcast::<ParamSpecUChar>().unwrap();
    assert_eq!((u.minimum(), u.maximum()), (0, 10));
    let l = ParamSpecLong::builder("l").build().downcast::<ParamSpecLong>().unwrap();
    assert_eq!(l.minimum(), i64::MIN);
    assert_eq!(l.value_type(), glib::types::Type::i_long());
    let ul = ParamSpecULong::builder("ul").default_value(3).build().downcast::<ParamSpecULong>().unwrap();
    assert_eq!(ul.default_value(), 3);
    assert_eq!(ul.value_type(), glib::types::Type::u_long());
    let h = <u8 as HasParamSpec>::param_spec_builder("h").build();
    assert_eq!(h.value_type(), glib::types::Type::u8());
}

#[test]
fn constructors_taking_all_fields() {
    let s = ParamSpecString::new("name", None, None, Some("default"), ParamFlags::readwrite());
    assert_eq!(s.name(), "name");
    assert_eq!(s.nick(), "name");
    assert_eq!(s.blurb(), None);
    assert_eq!(s.flags(), ParamFlags::readwrite());
    let s = s.downcast::<ParamSpecString>().ok().expect("Not a string param spec");
    assert_eq!(s.default_value(), Some("default"));

    let i = ParamSpecInt::new("count", Some("Count"), Some("How many"), -5, 5, 1, ParamFlags::readwrite());
    assert_eq!(i.nick(), "Count");
    assert_eq!(i.blurb(), Some("How many"));
    let i = i.downcast::<ParamSpecInt>().ok().unwrap();
    assert_eq!((i.minimum(), i.maximum(), i.default_value()), (-5, 5, 1));

    let u = ParamSpecUInt::new("u", None, None, 1, 9, 9, ParamFlags::readwrite());
    let u = u.downcast::<ParamSpecUInt>().ok().unwrap();
    assert_eq!((u.minimum(), u.maximum(), u.default_value()), (1, 9, 9));

    let c = ParamSpecChar::new("c", None, None, -3, 3, -3, ParamFlags::readwrite());
    assert_eq!(c.downcast::<ParamSpecChar>().ok().unwrap().default_value(), -3);
    let l = ParamSpecULong::new("l", None, None, 0, u64::MAX, 7, ParamFlags::readwrite());
    assert_eq!(l.downcast::<ParamSpecULong>().ok().unwrap().maximum(), u64::MAX);

    let b = ParamSpecBoolean::new("flag", None, None, true, ParamFlags::readwrite());
    assert!(b.downcast::<ParamSpecBoolean>().ok().unwrap().default_value());

    let base = ParamSpecInt::builder("base").build();
    let o = ParamSpecOverride::new("over", &base);
    assert_eq!(o.name(), "over");
    assert!(o.is::<ParamSpecOverride>());
}

#[test]
fn is_goes_by_the_kind_of_specification() {
    let s = ParamSpecString::builder("text").build();
    assert!(s.is::<ParamSpecString>());
    assert!(s.is::<ParamSpec>());
    assert!(!s.is::<ParamSpecInt>());
    let same = s.clone().downcast::<ParamSpec>().ok().unwrap();
    assert_eq!(same.name(), "text");
}

#[test]
fn spawn_options_default_to_new() {
    let d: glib::futures::SpawnOptions<u8> = Default::default();
    assert_eq!(d, glib::futures::SpawnOptions::new());
}

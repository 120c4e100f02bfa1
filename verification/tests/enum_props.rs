use glib::object::{prepare_set_property, Class, Object};
use glib::param_spec_builder::{EnumType, FlagsType, ParamSpecBuilderExt, ParamSpecEnum, ParamSpecFlags};
use glib::types::{StaticType, Type, TypeLineage};
use glib::value::{Value, ValueData};

#[derive(Clone, Copy, Debug, PartialEq, Eq)]
enum Shade {
    Light,
    Dark,
}

impl Default for Shade {
    fn default() -> Self {
        Shade::Light
    }
}

impl StaticType for Shade {
    fn spec_static_type() -> Type {
        Type(700)
    }

    fn spec_static_is_a(ancestor: Type) -> bool {
        ancestor == Type(700) || ancestor == Type::enum_()
    }

    fn static_type() -> Type {
        Type(700)
    }
}

impl EnumType for Shade {
    fn spec_into_glib(&self) -> i32 {
        self.into_glib()
    }

    fn spec_is_member(v: i32) -> bool {
        v == 10 || v == 20
    }

    fn into_glib(&self) -> i32 {
        match self {
            Shade::Light => 10,
            Shade::Dark => 20,
        }
    }

    fn members() -> Vec<i32> {
        vec![10, 20]
    }
}

#[derive(Clone, Copy, Debug, PartialEq, Eq)]
struct Access(u32);

impl StaticType for Access {
    fn spec_static_type() -> Type {
        Type(800)
    }

    fn spec_static_is_a(ancestor: Type) -> bool {
        ancestor == Type(800) || ancestor == Type::flags()
    }

    fn static_type() -> Type {
        Type(800)
    }
}

impl FlagsType for Access {
    fn spec_into_glib(&self) -> u32 {
        self.0
    }

    fn spec_mask() -> u32 {
        3
    }

    fn into_glib(&self) -> u32 {
        self.0
    }

    fn from_glib_empty() -> Self {
        Access(0)
    }

    fn mask() -> u32 {
        3
    }
}

fn value_of(t: Type, super_: Type, data: ValueData) -> Value {
    Value::new(TypeLineage::new(t, vec![super_]), data)
}

fn themed_class() -> Class<Object> {
    let shade = ParamSpecEnum::builder::<Shade>("shade").build();
    let lax = ParamSpecEnum::builder_with_default("lax-shade", Shade::Dark).lax_validation().build();
    let access = ParamSpecFlags::builder::<Access>("access").default_value(Access(1)).build();
    Class::new(TypeLineage::new(Type(1500), vec![Type::object()]), true, false, vec![shade, lax, access])
}



#[test]
fn enum_properties_accept_members_only() {
    let class = themed_class();
    let ok = value_of(Type(700), Type::enum_(), ValueData::Enum(20));
    assert!(prepare_set_property(&class, "shade", &ok).is_ok());
    let bad = value_of(Type(700), Type::enum_(), ValueData::Enum(30));
    assert!(prepare_set_property(&class, "shade", &bad).is_err());
    let (_, stored) = prepare_set_property(&class, "lax-shade", &bad).unwrap();
    assert!(matches!(stored.data(), ValueData::Enum(20)));
}

#[test]
fn flags_properties_drop_unknown_bits_only_when_lax() {
    let class = themed_class();
    let ok = value_of(Type(800), Type::flags(), ValueData::Flags(3));
    assert!(prepare_set_property(&class, "access", &ok).is_ok());
    let extra = value_of(Type(800), Type::flags(), ValueData::Flags(7));
    assert!(prepare_set_property(&class, "access", &extra).is_err());
}

#[test]
fn enum_and_flags_defaults() {
    let p = ParamSpecEnum::builder::<Shade>("shade").build().downcast::<ParamSpecEnum>().unwrap();
    assert_eq!(p.default_value(), 10);
    let q = ParamSpecFlags::builder::<Access>("access").default_value(Access(2)).build().downcast::<ParamSpecFlags>().unwrap();
    assert_eq!(q.default_value(), 2);
}

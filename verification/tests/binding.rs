use glib::binding::{plan_binding, transform_outcome, TransformOutcome};
use glib::object::Class;
use glib::param_spec_builder::{ParamSpecInt, ParamSpecString};
use glib::types::{Type, TypeLineage};
use glib::value::ToValue;

fn class_with(props: Vec<glib::param_spec::ParamSpec>) -> Class<()> {
    Class::new(TypeLineage::new(Type(900), vec![Type::object()]), true, false, props)
}

#[test]
fn binding_plans() {
    let source = class_with(vec![ParamSpecInt::builder("count").build()]);
    let target = class_with(vec![ParamSpecString::builder("label-text").build()]);
    let plan = plan_binding(Some(&source), "count", &target, "label_text", true, false).unwrap();
    assert_eq!(plan.source_property.name(), "count");
    assert_eq!(plan.target_property.name(), "label-text");
    assert!(plan.transform_to && !plan.transform_from);
    assert!(plan.has_transform_data());
    let plain = plan_binding(Some(&source), "count", &target, "label-text", false, false).unwrap();
    assert!(!plain.has_transform_data());
    assert!(plan_binding::<(), ()>(None, "count", &target, "label-text", false, false).is_err());
    assert!(plan_binding(Some(&source), "missing", &target, "label-text", false, false).is_err());
    assert!(plan_binding(Some(&source), "count", &target, "missing", false, false).is_err());
}

#[test]
fn transform_outcomes() {
    let p = ParamSpecInt::builder("n").build();
    assert!(matches!(transform_outcome(None, &p), TransformOutcome::Declined));
    assert!(matches!(transform_outcome(Some(3i32.to_value()), &p), TransformOutcome::Accepted(_)));
    assert!(matches!(transform_outcome(Some("x".to_string().to_value()), &p), TransformOutcome::Mismatch(_)));
}

#[test]
fn binding_plan_errors_in_order() {
    let source = class_with(vec![ParamSpecInt::builder("count").build()]);
    let target = class_with(vec![ParamSpecString::builder("label").build()]);
    let e = plan_binding::<(), ()>(None, "missing", &target, "missing", false, false).err().unwrap();
    assert_eq!(e.message, "Binding group does not have a source set");
    let e = plan_binding(Some(&source), "missing", &target, "missing", false, false).err().unwrap();
    assert_eq!(e.message, "Source property missing not found");
    let e = plan_binding(Some(&source), "count", &target, "missing", false, false).err().unwrap();
    assert_eq!(e.message, "Target property missing not found");
}

use vstd::prelude::*;
use vstd::string::StringSliceAdditionalSpecFns;

use crate::object::{spec_find, Class};
use crate::param_spec::ParamSpec;
use crate::types::{BoolError, Type};
use crate::value::Value;

verus! {

/// What binding a property of a group's source to a property of a target
/// needs once both properties are found: the two specifications, and which
/// transformations the binding calls.
pub struct BindingPlan {
    pub source_property: ParamSpec,
    pub target_property: ParamSpec,
    pub transform_to: bool,
    pub transform_from: bool,
}

impl BindingPlan {
    /// Whether the transformations need data of their own, to be freed with
    /// the binding: when there is any transformation.
    pub open spec fn spec_has_transform_data(&self) -> bool {
        self.transform_to || self.transform_from
    }

    /// Whether the transformations need data of their own.
    pub fn has_transform_data(&self) -> (r: bool)
        ensures
            r == self.spec_has_transform_data(),
    {
        self.transform_to || self.transform_from
    }
}

/// Plans the binding of the property `source_property` of the group's
/// source, whose class is `source` (none when the group has no source), to
/// the property `target_property` of a target of class `target`. It fails
/// when there is no source, then when the source has no such property, then
/// when the target has none, each time with its own message.
pub fn plan_binding<S, T>(
    source: Option<&Class<S>>,
    source_property: &str,
    target: &Class<T>,
    target_property: &str,
    have_transform_to: bool,
    have_transform_from: bool,
) -> (r: Result<BindingPlan, BoolError>)
    ensures
        r is Ok <==> (source matches Some(s) && spec_find(s.spec_properties(), source_property.spec_bytes()) is Some
            && spec_find(target.spec_properties(), target_property.spec_bytes()) is Some),
        r matches Ok(plan) ==> {
            &&& source matches Some(s) && Some(plan.source_property) == spec_find(
                s.spec_properties(),
                source_property.spec_bytes(),
            )
            &&& Some(plan.target_property) == spec_find(target.spec_properties(), target_property.spec_bytes())
            &&& plan.transform_to == have_transform_to
            &&& plan.transform_from == have_transform_from
        },
        source is None ==> (r matches Err(e) && e.message@ == "Binding group does not have a source set"@),
        source matches Some(s) && spec_find(s.spec_properties(), source_property.spec_bytes()) is None ==> (
        r matches Err(e) && e.message@ == "Source property "@ + source_property@ + " not found"@),
        source matches Some(s) && spec_find(s.spec_properties(), source_property.spec_bytes()) is Some
            && spec_find(target.spec_properties(), target_property.spec_bytes()) is None ==> (r matches Err(e)
            && e.message@ == "Target property "@ + target_property@ + " not found"@),
{
    let source = match source {
        Some(s) => s,
        None => {
            return Err(BoolError::new("Binding group does not have a source set"));
        },
    };
    let sp = match source.find_property(source_property) {
        Some(p) => p,
        None => {
            return Err(BoolError::with_name("Source property ", source_property, " not found"));
        },
    };
    let tp = match target.find_property(target_property) {
        Some(p) => p,
        None => {
            return Err(BoolError::with_name("Target property ", target_property, " not found"));
        },
    };
    Ok(
        BindingPlan {
            source_property: sp,
            target_property: tp,
            transform_to: have_transform_to,
            transform_from: have_transform_from,
        },
    )
}

/// What a transformation's answer makes of a binding's update: declined
/// (nothing to set), a value to set, or a value of a type that the property
/// does not hold, which is a programming error of the transformation.
pub enum TransformOutcome {
    Declined,
    Accepted(Value),
    Mismatch(Value),
}

/// Judges the answer `res` of a transformation whose result goes to the
/// property `expected`: a value must be of the property's value type or
/// derive from it.
pub fn transform_outcome(res: Option<Value>, expected: &ParamSpec) -> (r: TransformOutcome)
    ensures
        match res {
            None => r is Declined,
            Some(v) => if v@.type_ == expected.data().value_type || v@.supertypes.contains(
                expected.data().value_type,
            ) {
                r matches TransformOutcome::Accepted(w) && w@ == v@
            } else {
                r matches TransformOutcome::Mismatch(w) && w@ == v@
            },
        },
{
    match res {
        None => TransformOutcome::Declined,
        Some(v) => {
            let t: Type = expected.value_type();
            if v.type_is_a(t) {
                TransformOutcome::Accepted(v)
            } else {
                TransformOutcome::Mismatch(v)
            }
        },
    }
}

} // verus!

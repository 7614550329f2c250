use vstd::prelude::*;

use crate::error::{result_view, ErrorCode, ErrorView, ResourceValueError};
use crate::location::{
    location_attr, location_from_value, location_text, option_location_view, LocationView,
    OptionalResourceLocation, ResourceLocation,
};
use crate::text::text_equals;
use crate::value::{AttrValue, AttrView, InputValue, InputView};

verus! {

/// How a resource is to be added to a resource collection.
#[derive(Clone, Debug, PartialEq, Eq)]
pub struct AddCollectionContext {
    /// Whether the resource is included at all.
    pub included: bool,
    /// Where the resource is loaded from.
    pub location: ResourceLocation,
    /// Where the resource is loaded from if `location` cannot take it.
    pub location_fallback: Option<ResourceLocation>,
    /// Whether Python source is stored for a module.
    pub store_source: bool,
    /// Whether bytecode of optimization level 0 is stored.
    pub optimize_level_zero: bool,
    /// Whether bytecode of optimization level 1 is stored.
    pub optimize_level_one: bool,
    /// Whether bytecode of optimization level 2 is stored.
    pub optimize_level_two: bool,
}

/// The abstract form of an [`AddCollectionContext`].
pub struct ContextView {
    pub included: bool,
    pub location: LocationView,
    pub location_fallback: Option<LocationView>,
    pub store_source: bool,
    pub optimize_level_zero: bool,
    pub optimize_level_one: bool,
    pub optimize_level_two: bool,
}

impl View for AddCollectionContext {
    type V = ContextView;

    open spec fn view(&self) -> ContextView {
        ContextView {
            included: self.included,
            location: self.location@,
            location_fallback: option_location_view(self.location_fallback),
            store_source: self.store_source,
            optimize_level_zero: self.optimize_level_zero,
            optimize_level_one: self.optimize_level_one,
            optimize_level_two: self.optimize_level_two,
        }
    }
}

/// The view of an optional context.
pub open spec fn option_context_view(c: Option<AddCollectionContext>) -> Option<ContextView> {
    match c {
        Some(c) => Some(c@),
        None => None,
    }
}

/// The attributes that an add-collection context gives a resource value.
#[derive(Clone, Copy, Debug, PartialEq, Eq, Structural)]
pub enum ContextAttribute {
    Include,
    Location,
    LocationFallback,
    Source,
    OptimizeLevelZero,
    OptimizeLevelOne,
    OptimizeLevelTwo,
}

/// The Starlark name of a context attribute.
pub open spec fn attribute_name(a: ContextAttribute) -> Seq<char> {
    match a {
        ContextAttribute::Include => "add_include"@,
        ContextAttribute::Location => "add_location"@,
        ContextAttribute::LocationFallback => "add_location_fallback"@,
        ContextAttribute::Source => "add_source"@,
        ContextAttribute::OptimizeLevelZero => "add_bytecode_optimization_level_zero"@,
        ContextAttribute::OptimizeLevelOne => "add_bytecode_optimization_level_one"@,
        ContextAttribute::OptimizeLevelTwo => "add_bytecode_optimization_level_two"@,
    }
}

/// The context attribute that a name denotes, if any.
pub open spec fn context_attribute(s: Seq<char>) -> Option<ContextAttribute> {
    if s == attribute_name(ContextAttribute::Include) {
        Some(ContextAttribute::Include)
    } else if s == attribute_name(ContextAttribute::Location) {
        Some(ContextAttribute::Location)
    } else if s == attribute_name(ContextAttribute::LocationFallback) {
        Some(ContextAttribute::LocationFallback)
    } else if s == attribute_name(ContextAttribute::Source) {
        Some(ContextAttribute::Source)
    } else if s == attribute_name(ContextAttribute::OptimizeLevelZero) {
        Some(ContextAttribute::OptimizeLevelZero)
    } else if s == attribute_name(ContextAttribute::OptimizeLevelOne) {
        Some(ContextAttribute::OptimizeLevelOne)
    } else if s == attribute_name(ContextAttribute::OptimizeLevelTwo) {
        Some(ContextAttribute::OptimizeLevelTwo)
    } else {
        None
    }
}

/// The names of the context attributes, in the order in which they are listed.
pub open spec fn context_attribute_names() -> Seq<Seq<char>> {
    seq![
        attribute_name(ContextAttribute::Include),
        attribute_name(ContextAttribute::Location),
        attribute_name(ContextAttribute::LocationFallback),
        attribute_name(ContextAttribute::Source),
        attribute_name(ContextAttribute::OptimizeLevelZero),
        attribute_name(ContextAttribute::OptimizeLevelOne),
        attribute_name(ContextAttribute::OptimizeLevelTwo),
    ]
}

/// The value that a context attribute reads as: `None` without a context.
pub open spec fn context_attr_value(c: Option<ContextView>, a: ContextAttribute) -> AttrView {
    match c {
        None => AttrView::NoneValue,
        Some(c) => match a {
            ContextAttribute::OptimizeLevelZero => AttrView::Bool(c.optimize_level_zero),
            ContextAttribute::OptimizeLevelOne => AttrView::Bool(c.optimize_level_one),
            ContextAttribute::OptimizeLevelTwo => AttrView::Bool(c.optimize_level_two),
            ContextAttribute::Include => AttrView::Bool(c.included),
            ContextAttribute::Location => AttrView::Str(location_text(c.location)),
            ContextAttribute::LocationFallback => location_attr(c.location_fallback),
            ContextAttribute::Source => AttrView::Bool(c.store_source),
        },
    }
}

/// The context after setting attribute `a` to `v`, or the error that setting it raises.
pub open spec fn context_after_set(c: ContextView, a: ContextAttribute, v: InputView) -> Result<
    ContextView,
    ErrorView,
> {
    match a {
        ContextAttribute::OptimizeLevelZero => Ok(ContextView { optimize_level_zero: v.truth, ..c }),
        ContextAttribute::OptimizeLevelOne => Ok(ContextView { optimize_level_one: v.truth, ..c }),
        ContextAttribute::OptimizeLevelTwo => Ok(ContextView { optimize_level_two: v.truth, ..c }),
        ContextAttribute::Include => Ok(ContextView { included: v.truth, ..c }),
        ContextAttribute::Location => match location_from_value(v) {
            Err(e) => Err(e),
            Ok(None) => Err(ErrorView::SetAttrNotSupported { attribute: attribute_name(a) }),
            Ok(Some(l)) => Ok(ContextView { location: l, ..c }),
        },
        ContextAttribute::LocationFallback => match location_from_value(v) {
            Err(e) => Err(e),
            Ok(l) => Ok(ContextView { location_fallback: l, ..c }),
        },
        ContextAttribute::Source => Ok(ContextView { store_source: v.truth, ..c }),
    }
}

/// The error raised when setting a context attribute on a value without a context.
pub open spec fn missing_context_error() -> ErrorView {
    ErrorView::Runtime {
        code: ErrorCode::Pyoxidizer,
        message: "attempting to set a collection context attribute on an object without a context"@,
        label: "setattr()"@,
    }
}

/// Whether `r` and the final context `after` are what setting attribute `attribute`
/// to `v` on the context `before` gives: an error without a context, and otherwise
/// the changed context, or the error with the context left as it was.
pub open spec fn set_outcome(
    before: Option<ContextView>,
    attribute: Seq<char>,
    v: InputView,
    r: Result<(), ErrorView>,
    after: Option<ContextView>,
) -> bool {
    match before {
        None => r == Err::<(), ErrorView>(missing_context_error()) && after == before,
        Some(c) => match context_after_set(c, context_attribute(attribute).unwrap(), v) {
            Ok(c2) => r == Ok::<(), ErrorView>(()) && after == Some(c2),
            Err(e) => r == Err::<(), ErrorView>(e) && after == before,
        },
    }
}

impl ContextAttribute {
    /// The context attribute that `name` denotes, if any.
    pub fn from_name(name: &str) -> (r: Option<ContextAttribute>)
        ensures
            r == context_attribute(name@),
    {
        if text_equals(name, "add_include") {
            Some(ContextAttribute::Include)
        } else if text_equals(name, "add_location") {
            Some(ContextAttribute::Location)
        } else if text_equals(name, "add_location_fallback") {
            Some(ContextAttribute::LocationFallback)
        } else if text_equals(name, "add_source") {
            Some(ContextAttribute::Source)
        } else if text_equals(name, "add_bytecode_optimization_level_zero") {
            Some(ContextAttribute::OptimizeLevelZero)
        } else if text_equals(name, "add_bytecode_optimization_level_one") {
            Some(ContextAttribute::OptimizeLevelOne)
        } else if text_equals(name, "add_bytecode_optimization_level_two") {
            Some(ContextAttribute::OptimizeLevelTwo)
        } else {
            None
        }
    }
}

/// The names of the attributes that an add-collection context defines.
pub fn context_attribute_list() -> (r: Vec<&'static str>)
    ensures
        r@.len() == 7,
        forall|i: int| 0 <= i < 7 ==> #[trigger] r@[i]@ == context_attribute_names()[i],
{
    let mut r: Vec<&'static str> = Vec::new();
    r.push("add_include");
    r.push("add_location");
    r.push("add_location_fallback");
    r.push("add_source");
    r.push("add_bytecode_optimization_level_zero");
    r.push("add_bytecode_optimization_level_one");
    r.push("add_bytecode_optimization_level_two");
    r
}

/// Reads a context attribute of a value whose context is `context`.
pub fn get_context_attr(context: &Option<AddCollectionContext>, attribute: &str) -> (r: AttrValue)
    requires
        context_attribute(attribute@) is Some,
    ensures
        r@ == context_attr_value(
            option_context_view(*context),
            context_attribute(attribute@).unwrap(),
        ),
{
    let a = ContextAttribute::from_name(attribute).unwrap();
    match context {
        None => AttrValue::NoneValue,
        Some(c) => match a {
            ContextAttribute::OptimizeLevelZero => AttrValue::Bool(c.optimize_level_zero),
            ContextAttribute::OptimizeLevelOne => AttrValue::Bool(c.optimize_level_one),
            ContextAttribute::OptimizeLevelTwo => AttrValue::Bool(c.optimize_level_two),
            ContextAttribute::Include => AttrValue::Bool(c.included),
            ContextAttribute::Location => AttrValue::Str(c.location.to_text()),
            ContextAttribute::LocationFallback => match &c.location_fallback {
                Some(l) => AttrValue::Str(l.to_text()),
                None => AttrValue::NoneValue,
            },
            ContextAttribute::Source => AttrValue::Bool(c.store_source),
        },
    }
}

/// Sets a context attribute of a value whose context is `context`.
pub fn set_context_attr(
    context: &mut Option<AddCollectionContext>,
    attribute: &str,
    value: &InputValue,
) -> (r: Result<(), ResourceValueError>)
    requires
        *old(context) is None || context_attribute(attribute@) is Some,
    ensures
        set_outcome(
            option_context_view(*old(context)),
            attribute@,
            value@,
            result_view(r),
            option_context_view(*final(context)),
        ),
        r is Err ==> *final(context) == *old(context),
{
    match context {
        Some(c) => {
            let a = ContextAttribute::from_name(attribute).unwrap();
            match a {
                ContextAttribute::OptimizeLevelZero => {
                    c.optimize_level_zero = value.truth;
                    Ok(())
                },
                ContextAttribute::OptimizeLevelOne => {
                    c.optimize_level_one = value.truth;
                    Ok(())
                },
                ContextAttribute::OptimizeLevelTwo => {
                    c.optimize_level_two = value.truth;
                    Ok(())
                },
                ContextAttribute::Include => {
                    c.included = value.truth;
                    Ok(())
                },
                ContextAttribute::Location => {
                    let location = OptionalResourceLocation::try_from_value(value)?;
                    match location.inner {
                        Some(l) => {
                            c.location = l;
                            Ok(())
                        },
                        None => Err(
                            ResourceValueError::SetAttrNotSupported {
                                attribute: String::from_str(attribute),
                            },
                        ),
                    }
                },
                ContextAttribute::LocationFallback => {
                    let location = OptionalResourceLocation::try_from_value(value)?;
                    c.location_fallback = location.inner;
                    Ok(())
                },
                ContextAttribute::Source => {
                    c.store_source = value.truth;
                    Ok(())
                },
            }
        },
        None => Err(
            ResourceValueError::Runtime {
                code: ErrorCode::Pyoxidizer,
                message: String::from_str(
                    "attempting to set a collection context attribute on an object without a context",
                ),
                label: String::from_str("setattr()"),
            },
        ),
    }
}

} // verus!

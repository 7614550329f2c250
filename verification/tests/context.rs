use python_resource::context::{
    context_attribute_list, get_context_attr, set_context_attr, AddCollectionContext,
    ContextAttribute,
};
use python_resource::error::{ErrorCode, ResourceValueError};
use python_resource::location::ResourceLocation;
use python_resource::value::{AttrValue, InputValue};

fn sample_context() -> AddCollectionContext {
    AddCollectionContext {
        included: true,
        location: ResourceLocation::InMemory,
        location_fallback: None,
        store_source: false,
        optimize_level_zero: true,
        optimize_level_one: false,
        optimize_level_two: false,
    }
}

fn bool_input(b: bool) -> InputValue {
    InputValue { value_type: "bool".to_string(), truth: b, text: String::new() }
}

fn string_input(s: &str) -> InputValue {
    InputValue {
        value_type: "string".to_string(),
        truth: !s.is_empty(),
        text: s.to_string(),
    }
}

fn none_input() -> InputValue {
    InputValue { value_type: "NoneType".to_string(), truth: false, text: String::new() }
}

const NAMES: [&str; 7] = [
    "add_include",
    "add_location",
    "add_location_fallback",
    "add_source",
    "add_bytecode_optimization_level_zero",
    "add_bytecode_optimization_level_one",
    "add_bytecode_optimization_level_two",
];

#[test]
fn attribute_list() {
    assert_eq!(context_attribute_list(), NAMES.to_vec());
}

#[test]
fn attribute_names_denote_attributes() {
    for name in NAMES {
        assert!(ContextAttribute::from_name(name).is_some());
    }
    assert_eq!(ContextAttribute::from_name("add_location"), Some(ContextAttribute::Location));
    assert_eq!(
        ContextAttribute::from_name("add_bytecode_optimization_level_two"),
        Some(ContextAttribute::OptimizeLevelTwo)
    );
    assert_eq!(ContextAttribute::from_name("add_locations"), None);
    assert_eq!(ContextAttribute::from_name("name"), None);
}

#[test]
fn read_context_attributes() {
    let c = Some(sample_context());
    assert_eq!(get_context_attr(&c, "add_include"), AttrValue::Bool(true));
    assert_eq!(get_context_attr(&c, "add_location"), AttrValue::Str("in-memory".to_string()));
    assert_eq!(get_context_attr(&c, "add_location_fallback"), AttrValue::NoneValue);
    assert_eq!(get_context_attr(&c, "add_source"), AttrValue::Bool(false));
    assert_eq!(
        get_context_attr(&c, "add_bytecode_optimization_level_zero"),
        AttrValue::Bool(true)
    );
    assert_eq!(
        get_context_attr(&c, "add_bytecode_optimization_level_one"),
        AttrValue::Bool(false)
    );
}

#[test]
fn read_without_context_is_none() {
    for name in NAMES {
        assert_eq!(get_context_attr(&None, name), AttrValue::NoneValue);
    }
}

#[test]
fn set_flags_then_read_them() {
    for name in [
        "add_include",
        "add_source",
        "add_bytecode_optimization_level_zero",
        "add_bytecode_optimization_level_one",
        "add_bytecode_optimization_level_two",
    ] {
        for b in [true, false] {
            let mut c = Some(sample_context());
            set_context_attr(&mut c, name, &bool_input(b)).unwrap();
            assert_eq!(get_context_attr(&c, name), AttrValue::Bool(b));
        }
    }
}

#[test]
fn set_flag_uses_truth_of_value() {
    let mut c = Some(sample_context());
    set_context_attr(&mut c, "add_source", &string_input("yes")).unwrap();
    assert!(c.as_ref().unwrap().store_source);
    set_context_attr(&mut c, "add_include", &none_input()).unwrap();
    assert!(!c.as_ref().unwrap().included);
}

#[test]
fn set_location_then_read_it() {
    let mut c = Some(sample_context());
    set_context_attr(&mut c, "add_location", &string_input("filesystem-relative:lib")).unwrap();
    assert_eq!(
        c.as_ref().unwrap().location,
        ResourceLocation::RelativePath("lib".to_string())
    );
    assert_eq!(
        get_context_attr(&c, "add_location"),
        AttrValue::Str("filesystem-relative:lib".to_string())
    );
}

#[test]
fn set_location_to_default_is_refused() {
    let mut c = Some(sample_context());
    let e = set_context_attr(&mut c, "add_location", &string_input("default")).unwrap_err();
    assert_eq!(
        e,
        ResourceValueError::SetAttrNotSupported { attribute: "add_location".to_string() }
    );
    assert_eq!(c, Some(sample_context()));
    let e = set_context_attr(&mut c, "add_location", &none_input()).unwrap_err();
    assert_eq!(
        e,
        ResourceValueError::SetAttrNotSupported { attribute: "add_location".to_string() }
    );
    assert_eq!(c, Some(sample_context()));
}

#[test]
fn set_location_to_bad_text_is_an_error() {
    let mut c = Some(sample_context());
    let e = set_context_attr(&mut c, "add_location", &string_input("disk")).unwrap_err();
    assert!(matches!(
        e,
        ResourceValueError::Runtime { code: ErrorCode::IncorrectParameterType, .. }
    ));
    assert_eq!(c, Some(sample_context()));
}

#[test]
fn set_location_fallback() {
    let mut c = Some(sample_context());
    set_context_attr(&mut c, "add_location_fallback", &string_input("filesystem-relative:x"))
        .unwrap();
    assert_eq!(
        get_context_attr(&c, "add_location_fallback"),
        AttrValue::Str("filesystem-relative:x".to_string())
    );
    set_context_attr(&mut c, "add_location_fallback", &string_input("default")).unwrap();
    assert_eq!(get_context_attr(&c, "add_location_fallback"), AttrValue::NoneValue);
    set_context_attr(&mut c, "add_location_fallback", &string_input("in-memory")).unwrap();
    set_context_attr(&mut c, "add_location_fallback", &none_input()).unwrap();
    assert_eq!(c.as_ref().unwrap().location_fallback, None);
}

#[test]
fn set_leaves_other_attributes() {
    let mut c = Some(sample_context());
    set_context_attr(&mut c, "add_bytecode_optimization_level_two", &bool_input(true)).unwrap();
    let expected = AddCollectionContext { optimize_level_two: true, ..sample_context() };
    assert_eq!(c, Some(expected));
}

#[test]
fn write_back_leaves_context_unchanged() {
    let mut c = Some(AddCollectionContext {
        location: ResourceLocation::RelativePath("lib".to_string()),
        location_fallback: Some(ResourceLocation::InMemory),
        ..sample_context()
    });
    let before = c.clone();
    set_context_attr(&mut c, "add_location", &string_input("filesystem-relative:lib")).unwrap();
    set_context_attr(&mut c, "add_location_fallback", &string_input("in-memory")).unwrap();
    set_context_attr(&mut c, "add_include", &bool_input(true)).unwrap();
    assert_eq!(c, before);
}

#[test]
fn set_without_context_is_an_error() {
    let mut c: Option<AddCollectionContext> = None;
    let e = set_context_attr(&mut c, "add_include", &bool_input(true)).unwrap_err();
    assert_eq!(
        e,
        ResourceValueError::Runtime {
            code: ErrorCode::Pyoxidizer,
            message:
                "attempting to set a collection context attribute on an object without a context"
                    .to_string(),
            label: "setattr()".to_string(),
        }
    );
    assert_eq!(c, None);
    assert!(set_context_attr(&mut c, "not_an_attribute", &bool_input(true)).is_err());
}

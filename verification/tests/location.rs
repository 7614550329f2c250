use python_resource::error::{ErrorCode, ResourceValueError};
use python_resource::location::{OptionalResourceLocation, ResourceLocation};
use python_resource::value::{AttrValue, InputValue};

fn string_input(s: &str) -> InputValue {
    InputValue {
        value_type: "string".to_string(),
        truth: !s.is_empty(),
        text: s.to_string(),
    }
}

#[test]
fn parse_default_location() {
    let l = OptionalResourceLocation::try_from_str("default").unwrap();
    assert_eq!(l.inner, None);
}

#[test]
fn parse_in_memory_location() {
    let l = OptionalResourceLocation::try_from_str("in-memory").unwrap();
    assert_eq!(l.inner, Some(ResourceLocation::InMemory));
}

#[test]
fn parse_relative_location() {
    let l = OptionalResourceLocation::try_from_str("filesystem-relative:lib").unwrap();
    assert_eq!(l.inner, Some(ResourceLocation::RelativePath("lib".to_string())));
}

#[test]
fn parse_relative_location_with_empty_prefix() {
    let l = OptionalResourceLocation::try_from_str("filesystem-relative:").unwrap();
    assert_eq!(l.inner, Some(ResourceLocation::RelativePath(String::new())));
}

#[test]
fn parse_relative_location_keeps_colons_and_unicode() {
    let l = OptionalResourceLocation::try_from_str("filesystem-relative:a:b/é").unwrap();
    assert_eq!(l.inner, Some(ResourceLocation::RelativePath("a:b/é".to_string())));
}

#[test]
fn parse_bad_location() {
    let e = OptionalResourceLocation::try_from_str("in_memory").unwrap_err();
    assert_eq!(
        e,
        ResourceValueError::Runtime {
            code: ErrorCode::IncorrectParameterType,
            message: "unable to convert value in_memory to a resource location".to_string(),
            label: "expected `default`, `in-memory`, or `filesystem-relative:*`; got in_memory"
                .to_string(),
        }
    );
}

#[test]
fn parse_location_without_colon_is_an_error() {
    assert!(OptionalResourceLocation::try_from_str("filesystem-relative").is_err());
    assert!(OptionalResourceLocation::try_from_str("").is_err());
    assert!(OptionalResourceLocation::try_from_str("Default").is_err());
}

#[test]
fn location_text_forms() {
    assert_eq!(ResourceLocation::InMemory.to_text(), "in-memory");
    assert_eq!(
        ResourceLocation::RelativePath("prefix/dir".to_string()).to_text(),
        "filesystem-relative:prefix/dir"
    );
}

#[test]
fn location_values() {
    let none = OptionalResourceLocation { inner: None };
    assert_eq!(none.to_value(), AttrValue::NoneValue);
    let mem = OptionalResourceLocation { inner: Some(ResourceLocation::InMemory) };
    assert_eq!(mem.to_value(), AttrValue::Str("in-memory".to_string()));
    let rel = OptionalResourceLocation {
        inner: Some(ResourceLocation::RelativePath("lib".to_string())),
    };
    assert_eq!(rel.to_value(), AttrValue::Str("filesystem-relative:lib".to_string()));
}

#[test]
fn location_text_round_trip() {
    for l in [
        ResourceLocation::InMemory,
        ResourceLocation::RelativePath("x/y".to_string()),
        ResourceLocation::RelativePath(String::new()),
    ] {
        let text = l.to_text();
        let back = OptionalResourceLocation::try_from_str(&text).unwrap();
        assert_eq!(back.inner, Some(l));
    }
}

#[test]
fn location_from_values() {
    let none = InputValue {
        value_type: "NoneType".to_string(),
        truth: false,
        text: String::new(),
    };
    assert_eq!(OptionalResourceLocation::try_from_value(&none).unwrap().inner, None);
    assert_eq!(
        OptionalResourceLocation::try_from_value(&string_input("in-memory")).unwrap().inner,
        Some(ResourceLocation::InMemory)
    );
    let int = InputValue { value_type: "int".to_string(), truth: true, text: String::new() };
    assert_eq!(
        OptionalResourceLocation::try_from_value(&int).unwrap_err(),
        ResourceValueError::Runtime {
            code: ErrorCode::IncorrectParameterType,
            message: "unable to convert value int to resource location".to_string(),
            label: "resource location conversion".to_string(),
        }
    );
    assert!(OptionalResourceLocation::try_from_value(&string_input("nowhere")).is_err());
}

#[test]
fn location_into_option() {
    let l = OptionalResourceLocation { inner: Some(ResourceLocation::InMemory) };
    assert_eq!(l.into_location(), Some(ResourceLocation::InMemory));
}

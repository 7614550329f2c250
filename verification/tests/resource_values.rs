use python_packaging::resource::{PythonExtensionModule, PythonResource};
use python_resource::context::AddCollectionContext;
use python_resource::error::ResourceValueError;
use python_resource::location::ResourceLocation;
use python_resource::resource::ResourceKind;
use python_resource::resource_value::{
    FileValue, PythonExtensionModuleValue, ResourceCollectionContext,
};
use python_resource::value::{AttrValue, InputValue};
use tugger_file_manifest::{File, FileEntry};

fn extension_module(name: &str, is_stdlib: bool) -> PythonExtensionModule {
    PythonExtensionModule {
        name: name.to_string(),
        init_fn: None,
        extension_file_suffix: ".so".to_string(),
        shared_library: None,
        object_file_data: vec![],
        is_package: false,
        link_libraries: vec![],
        is_stdlib,
        builtin_default: false,
        required: false,
        variant: None,
        license: None,
    }
}

fn file(path: &str, executable: bool) -> File {
    File::new(path, FileEntry::new_from_data(vec![1u8, 2, 3], executable))
}

fn context() -> AddCollectionContext {
    AddCollectionContext {
        included: false,
        location: ResourceLocation::RelativePath("lib".to_string()),
        location_fallback: None,
        store_source: true,
        optimize_level_zero: false,
        optimize_level_one: true,
        optimize_level_two: false,
    }
}

fn bool_input(b: bool) -> InputValue {
    InputValue { value_type: "bool".to_string(), truth: b, text: String::new() }
}

#[test]
fn extension_module_value_starts_without_context() {
    let v = PythonExtensionModuleValue::new(extension_module("_ssl", true));
    assert!(v.add_context.is_none());
    assert_eq!(v.inner.name, "_ssl");
    assert_eq!(PythonExtensionModuleValue::value_type(), "PythonExtensionModule");
}

#[test]
fn extension_module_own_attributes() {
    let v = PythonExtensionModuleValue::new(extension_module("_ssl", true));
    assert_eq!(v.get_attr("name").unwrap(), AttrValue::Str("_ssl".to_string()));
    assert_eq!(v.get_attr("is_stdlib").unwrap(), AttrValue::Bool(true));
    let w = PythonExtensionModuleValue::new(extension_module("foo", false));
    assert_eq!(w.get_attr("is_stdlib").unwrap(), AttrValue::Bool(false));
}

#[test]
fn extension_module_text() {
    let v = PythonExtensionModuleValue::new(extension_module("_ssl", true));
    assert_eq!(v.to_str(), "PythonExtensionModule<name=_ssl>");
    assert_eq!(v.to_repr(), v.to_str());
}

#[test]
fn extension_module_context_attributes() {
    let mut v = PythonExtensionModuleValue::new(extension_module("_ssl", true));
    assert_eq!(v.get_attr("add_include").unwrap(), AttrValue::NoneValue);
    v.add_context = Some(context());
    assert_eq!(
        v.get_attr("add_location").unwrap(),
        AttrValue::Str("filesystem-relative:lib".to_string())
    );
    assert_eq!(v.get_attr("add_source").unwrap(), AttrValue::Bool(true));
    v.set_attr("add_include", &bool_input(true)).unwrap();
    assert_eq!(v.get_attr("add_include").unwrap(), AttrValue::Bool(true));
    assert_eq!(v.inner.name, "_ssl");
}

#[test]
fn extension_module_unknown_attribute() {
    let v = PythonExtensionModuleValue::new(extension_module("_ssl", true));
    assert_eq!(
        v.get_attr("path").unwrap_err(),
        ResourceValueError::GetAttrNotSupported {
            attribute: "path".to_string(),
            value_type: "PythonExtensionModule".to_string(),
        }
    );
}

#[test]
fn extension_module_has_attributes() {
    let v = PythonExtensionModuleValue::new(extension_module("_ssl", true));
    assert!(v.has_attr("name"));
    assert!(v.has_attr("is_stdlib"));
    assert!(v.has_attr("add_location_fallback"));
    assert!(!v.has_attr("path"));
    assert!(!v.has_attr("is_executable"));
}

#[test]
fn extension_module_set_without_context() {
    let mut v = PythonExtensionModuleValue::new(extension_module("_ssl", true));
    assert!(matches!(
        v.set_attr("add_include", &bool_input(true)),
        Err(ResourceValueError::Runtime { .. })
    ));
    assert!(v.add_context.is_none());
}

#[test]
fn extension_module_as_resource() {
    let v = PythonExtensionModuleValue::new(extension_module("_ssl", true));
    let r = v.as_python_resource();
    assert_eq!(ResourceKind::of(&r), ResourceKind::ExtensionModule);
    assert_eq!(r.full_name(), "_ssl");
}

#[test]
fn extension_module_context_accessors() {
    let mut v = PythonExtensionModuleValue::new(extension_module("_ssl", true));
    *v.add_collection_context_mut() = Some(context());
    assert_eq!(v.add_collection_context(), &Some(context()));
    assert_eq!(v.add_collection_context_attrs().len(), 7);
    assert_eq!(v.get_attr_add_collection_context("add_include"), AttrValue::Bool(false));
}

#[test]
fn file_value_attributes() {
    let v = FileValue::new(file("lib/foo.py", true));
    assert!(v.add_context.is_none());
    assert_eq!(v.get_attr("path").unwrap(), AttrValue::Str("lib/foo.py".to_string()));
    assert_eq!(v.get_attr("is_executable").unwrap(), AttrValue::Bool(true));
    let w = FileValue::new(file("a.txt", false));
    assert_eq!(w.get_attr("is_executable").unwrap(), AttrValue::Bool(false));
    assert_eq!(FileValue::value_type(), "File");
}

#[test]
fn file_value_text() {
    let v = FileValue::new(file("lib/foo.py", true));
    assert_eq!(v.to_str(), "File<path=lib/foo.py, is_executable=true>");
    let w = FileValue::new(file("a.txt", false));
    assert_eq!(w.to_repr(), "File<path=a.txt, is_executable=false>");
}

#[test]
fn file_value_unknown_attribute() {
    let v = FileValue::new(file("a.txt", false));
    assert_eq!(
        v.get_attr("name").unwrap_err(),
        ResourceValueError::GetAttrNotSupported {
            attribute: "name".to_string(),
            value_type: "File".to_string(),
        }
    );
    assert!(v.has_attr("path"));
    assert!(v.has_attr("is_executable"));
    assert!(v.has_attr("add_include"));
    assert!(!v.has_attr("name"));
}

#[test]
fn file_value_context() {
    let mut v = FileValue::new(file("a.txt", false));
    v.add_context = Some(context());
    let s = InputValue {
        value_type: "string".to_string(),
        truth: true,
        text: "in-memory".to_string(),
    };
    v.set_attr("add_location", &s).unwrap();
    assert_eq!(v.get_attr("add_location").unwrap(), AttrValue::Str("in-memory".to_string()));
    assert_eq!(v.add_context.as_ref().unwrap().location, ResourceLocation::InMemory);
    let r = v.as_python_resource();
    assert_eq!(ResourceKind::of(&r), ResourceKind::File);
}

#[test]
fn resource_kind_of_resources() {
    let em = extension_module("_ssl", true);
    assert_eq!(ResourceKind::of(&PythonResource::from(&em)), ResourceKind::ExtensionModule);
    let f = file("x", false);
    assert_eq!(ResourceKind::of(&PythonResource::from(&f)), ResourceKind::File);
}

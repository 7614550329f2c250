use vstd::prelude::*;

use python_packaging::resource::PythonResource;

use crate::error::{ErrorCode, ErrorView, ResourceValueError};
use crate::outside::{python_resource_kind, resource_kind_of};
use crate::text::text_equals;

verus! {

/// The kinds of Python resource that a resource collection holds.
#[derive(Clone, Copy, Debug, PartialEq, Eq, Structural)]
pub enum ResourceKind {
    ModuleSource,
    ModuleBytecodeRequest,
    ModuleBytecode,
    PackageResource,
    PackageDistributionResource,
    ExtensionModule,
    EggFile,
    PathExtension,
    File,
}

/// The kinds of Starlark value that stand for a Python resource.
#[derive(Clone, Copy, Debug, PartialEq, Eq, Structural)]
pub enum ResourceValueKind {
    ModuleSource,
    PackageResource,
    PackageDistributionResource,
    ExtensionModule,
    File,
}

impl View for ResourceValueKind {
    type V = ResourceValueKind;

    open spec fn view(&self) -> ResourceValueKind {
        *self
    }
}

impl ResourceKind {
    /// The kind of a Python resource: which of its variants it is.
    pub fn of(resource: &PythonResource) -> (r: ResourceKind)
        ensures
            r == resource_kind_of(*resource),
    {
        python_resource_kind(resource)
    }
}

/// The Starlark type name of a resource value kind.
pub open spec fn value_kind_type(k: ResourceValueKind) -> Seq<char> {
    match k {
        ResourceValueKind::ModuleSource => "PythonModuleSource"@,
        ResourceValueKind::PackageResource => "PythonPackageResource"@,
        ResourceValueKind::PackageDistributionResource => "PythonPackageDistributionResource"@,
        ResourceValueKind::ExtensionModule => "PythonExtensionModule"@,
        ResourceValueKind::File => "File"@,
    }
}

/// The Starlark value kind that stands for a resource kind, if it has one.
pub open spec fn starlark_value_kind(k: ResourceKind) -> Option<ResourceValueKind> {
    match k {
        ResourceKind::ModuleSource => Some(ResourceValueKind::ModuleSource),
        ResourceKind::PackageResource => Some(ResourceValueKind::PackageResource),
        ResourceKind::PackageDistributionResource => Some(
            ResourceValueKind::PackageDistributionResource,
        ),
        ResourceKind::ExtensionModule => Some(ResourceValueKind::ExtensionModule),
        ResourceKind::File => Some(ResourceValueKind::File),
        ResourceKind::ModuleBytecode => None,
        ResourceKind::ModuleBytecodeRequest => None,
        ResourceKind::EggFile => None,
        ResourceKind::PathExtension => None,
    }
}

/// The resource value kind whose Starlark type name is `t`, if any.
pub open spec fn value_kind_of_type(t: Seq<char>) -> Option<ResourceValueKind> {
    if t == value_kind_type(ResourceValueKind::ModuleSource) {
        Some(ResourceValueKind::ModuleSource)
    } else if t == value_kind_type(ResourceValueKind::PackageResource) {
        Some(ResourceValueKind::PackageResource)
    } else if t == value_kind_type(ResourceValueKind::PackageDistributionResource) {
        Some(ResourceValueKind::PackageDistributionResource)
    } else if t == value_kind_type(ResourceValueKind::ExtensionModule) {
        Some(ResourceValueKind::ExtensionModule)
    } else if t == value_kind_type(ResourceValueKind::File) {
        Some(ResourceValueKind::File)
    } else {
        None
    }
}

/// The resource value kind from which the add-collection context of a value of
/// type `t` is read, or the error for a value that has none.
pub open spec fn context_source(t: Seq<char>, label: Seq<char>) -> Result<
    ResourceValueKind,
    ErrorView,
> {
    match value_kind_of_type(t) {
        Some(k) => Ok(k),
        None => Err(
            ErrorView::Runtime {
                code: ErrorCode::IncorrectParameterType,
                message: "unable to obtain add collection context from "@ + t,
                label: label,
            },
        ),
    }
}

impl ResourceValueKind {
    /// The Starlark type name of values of this kind.
    pub fn value_type(&self) -> (r: &'static str)
        ensures
            r@ == value_kind_type(*self),
    {
        match self {
            ResourceValueKind::ModuleSource => "PythonModuleSource",
            ResourceValueKind::PackageResource => "PythonPackageResource",
            ResourceValueKind::PackageDistributionResource => "PythonPackageDistributionResource",
            ResourceValueKind::ExtensionModule => "PythonExtensionModule",
            ResourceValueKind::File => "File",
        }
    }
}

/// Whether a resource of kind `kind` can be turned into a Starlark value.
pub fn is_resource_starlark_compatible(kind: ResourceKind) -> (r: bool)
    ensures
        r == starlark_value_kind(kind) is Some,
{
    match kind {
        ResourceKind::ModuleSource => true,
        ResourceKind::PackageResource => true,
        ResourceKind::PackageDistributionResource => true,
        ResourceKind::ExtensionModule => true,
        ResourceKind::ModuleBytecode => false,
        ResourceKind::ModuleBytecodeRequest => false,
        ResourceKind::EggFile => false,
        ResourceKind::PathExtension => false,
        ResourceKind::File => true,
    }
}

/// The kind of Starlark value that a resource of kind `kind` becomes.
pub fn python_resource_to_value(kind: ResourceKind) -> (r: ResourceValueKind)
    requires
        starlark_value_kind(kind) is Some,
    ensures
        Some(r) == starlark_value_kind(kind),
{
    match kind {
        ResourceKind::ModuleSource => ResourceValueKind::ModuleSource,
        ResourceKind::PackageResource => ResourceValueKind::PackageResource,
        ResourceKind::PackageDistributionResource => ResourceValueKind::PackageDistributionResource,
        ResourceKind::ExtensionModule => ResourceValueKind::ExtensionModule,
        ResourceKind::File => ResourceValueKind::File,
        // Not reached: the precondition rules out the kinds without a Starlark value.
        _ => ResourceValueKind::File,
    }
}

/// The kind of resource value from which the add-collection context of a Starlark
/// value of type `value_type` is read; `label` labels the error for other types.
pub fn add_context_for_value(value_type: &str, label: &str) -> (r: Result<
    ResourceValueKind,
    ResourceValueError,
>)
    ensures
        crate::error::result_view(r) == context_source(value_type@, label@),
{
    if text_equals(value_type, "PythonModuleSource") {
        Ok(ResourceValueKind::ModuleSource)
    } else if text_equals(value_type, "PythonPackageResource") {
        Ok(ResourceValueKind::PackageResource)
    } else if text_equals(value_type, "PythonPackageDistributionResource") {
        Ok(ResourceValueKind::PackageDistributionResource)
    } else if text_equals(value_type, "PythonExtensionModule") {
        Ok(ResourceValueKind::ExtensionModule)
    } else if text_equals(value_type, "File") {
        Ok(ResourceValueKind::File)
    } else {
        Err(
            ResourceValueError::Runtime {
                code: ErrorCode::IncorrectParameterType,
                message: String::from_str("unable to obtain add collection context from ").concat(
                    value_type,
                ),
                label: String::from_str(label),
            },
        )
    }
}

} // verus!

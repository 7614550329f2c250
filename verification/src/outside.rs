use vstd::prelude::*;

use python_packaging::resource::{PythonExtensionModule, PythonResource};
use tugger_file_manifest::File;

use crate::resource::ResourceKind;

verus! {

/// A Python resource of any kind.
#[verifier::external_type_specification]
#[verifier::external_body]
pub struct ExPythonResource<'a>(PythonResource<'a>);

/// A Python extension module.
#[verifier::external_type_specification]
#[verifier::external_body]
pub struct ExPythonExtensionModule(PythonExtensionModule);

/// A file with its path and content.
#[verifier::external_type_specification]
#[verifier::external_body]
pub struct ExFile(File);

/// Copies a file (`Clone` of `File`); nothing is stated of the copy.
pub assume_specification[ <tugger_file_manifest::File as Clone>::clone ](
    file: &tugger_file_manifest::File,
) -> tugger_file_manifest::File;

/// Copies an extension module (`Clone` of `PythonExtensionModule`); nothing is
/// stated of the copy.
pub assume_specification[ <python_packaging::resource::PythonExtensionModule as Clone>::clone ](
    module: &python_packaging::resource::PythonExtensionModule,
) -> python_packaging::resource::PythonExtensionModule;

/// The name of an extension module: its `name` field.
pub uninterp spec fn module_name(module: PythonExtensionModule) -> Seq<char>;

/// Whether an extension module belongs to the standard library: its `is_stdlib` field.
pub uninterp spec fn module_is_stdlib(module: PythonExtensionModule) -> bool;

/// The path of a file as `File::path_string` displays it.
pub uninterp spec fn file_path(file: File) -> Seq<char>;

/// Whether a file is executable: the flag of its entry.
pub uninterp spec fn file_executable(file: File) -> bool;

/// The extension module that a resource holds, if it is an extension module resource.
pub uninterp spec fn resource_extension_module(resource: PythonResource) -> Option<
    PythonExtensionModule,
>;

/// The file that a resource holds, if it is a file resource.
pub uninterp spec fn resource_file(resource: PythonResource) -> Option<File>;

/// Which variant of `PythonResource` a resource is.
pub uninterp spec fn resource_kind_of(resource: PythonResource) -> ResourceKind;

/// The module name of an extension module: a copy of its `name` field, which the
/// contract names [`module_name`].
#[verifier::external_body]
pub(crate) fn extension_module_name(module: &PythonExtensionModule) -> (r: String)
    ensures
        r@ == module_name(*module),
{
    module.name.clone()
}

/// Whether an extension module belongs to the standard library: its `is_stdlib`
/// field, which the contract names [`module_is_stdlib`].
#[verifier::external_body]
pub(crate) fn extension_module_is_stdlib(module: &PythonExtensionModule) -> (r: bool)
    ensures
        r == module_is_stdlib(*module),
{
    module.is_stdlib
}

/// An extension module as a Python resource (`PythonResource::from`): the
/// `ExtensionModule` variant, holding `module`.
#[verifier::external_body]
pub(crate) fn extension_module_resource<'a>(module: &'a PythonExtensionModule) -> (r:
    PythonResource<'a>)
    ensures
        resource_kind_of(r) == ResourceKind::ExtensionModule,
        resource_extension_module(r) == Some(*module),
{
    PythonResource::from(module)
}

/// The path of a file, displayed as text (`File::path_string`), which the contract
/// names [`file_path`].
#[verifier::external_body]
pub(crate) fn file_path_string(file: &File) -> (r: String)
    ensures
        r@ == file_path(*file),
{
    file.path_string()
}

/// Whether a file is executable (`FileEntry::is_executable` of its entry), which the
/// contract names [`file_executable`].
#[verifier::external_body]
pub(crate) fn file_is_executable(file: &File) -> (r: bool)
    ensures
        r == file_executable(*file),
{
    file.entry().is_executable()
}

/// A file as a Python resource (`PythonResource::from`): the `File` variant,
/// holding `file`.
#[verifier::external_body]
pub(crate) fn file_resource<'a>(file: &'a File) -> (r: PythonResource<'a>)
    ensures
        resource_kind_of(r) == ResourceKind::File,
        resource_file(r) == Some(*file),
{
    PythonResource::from(file)
}

/// The kind of a Python resource: which variant of `PythonResource` it is, which
/// the contract names [`resource_kind_of`].
#[verifier::external_body]
pub(crate) fn python_resource_kind(resource: &PythonResource) -> (r: ResourceKind)
    ensures
        r == resource_kind_of(*resource),
{
    match resource {
        PythonResource::ModuleSource(_) => ResourceKind::ModuleSource,
        PythonResource::ModuleBytecodeRequest(_) => ResourceKind::ModuleBytecodeRequest,
        PythonResource::ModuleBytecode(_) => ResourceKind::ModuleBytecode,
        PythonResource::PackageResource(_) => ResourceKind::PackageResource,
        PythonResource::PackageDistributionResource(_) => ResourceKind::PackageDistributionResource,
        PythonResource::ExtensionModule(_) => ResourceKind::ExtensionModule,
        PythonResource::EggFile(_) => ResourceKind::EggFile,
        PythonResource::PathExtension(_) => ResourceKind::PathExtension,
        PythonResource::File(_) => ResourceKind::File,
    }
}

} // verus!

use vstd::prelude::*;

use python_packaging::resource::{PythonExtensionModule, PythonResource};
use tugger_file_manifest::File;

use crate::context::{
    context_attribute, ContextAttribute, ContextView, context_attribute_list, context_attribute_names, context_attr_value,
    get_context_attr, option_context_view, set_context_attr, set_outcome, AddCollectionContext,
};
use crate::error::{result_view, ErrorView, ResourceValueError};
use crate::text::text_equals;
use crate::outside::{
    extension_module_is_stdlib, extension_module_name, extension_module_resource, file_executable,
    file_is_executable, file_path, file_path_string, file_resource, module_is_stdlib, module_name,
    resource_extension_module, resource_file, resource_kind_of,
};
use crate::resource::{starlark_value_kind, ResourceKind};
use crate::value::{AttrValue, AttrView, InputValue};

verus! {

/// A value that may carry an add-collection context, which scripts read and
/// write through the context attributes.
pub trait ResourceCollectionContext: Sized {
    /// The add-collection context of this value, if it has one.
    spec fn collection_context(&self) -> Option<AddCollectionContext>;

    /// This value with its add-collection context replaced by `c`.
    spec fn with_collection_context(&self, c: Option<AddCollectionContext>) -> Self;

    /// Replacing the context gives a value with that context; replacing it by the
    /// context it holds gives the value back; and of two replacements the last counts.
    proof fn lemma_with_collection_context(
        &self,
        c: Option<AddCollectionContext>,
        d: Option<AddCollectionContext>,
    )
        ensures
            self.with_collection_context(c).collection_context() == c,
            self.with_collection_context(self.collection_context()) == *self,
            self.with_collection_context(c).with_collection_context(d)
                == self.with_collection_context(d),
    ;

    /// The add-collection context of this value, if it has one.
    fn add_collection_context(&self) -> (r: &Option<AddCollectionContext>)
        ensures
            *r == self.collection_context(),
    ;

    /// The add-collection context of this value, to be changed in place.
    fn add_collection_context_mut(&mut self) -> (r: &mut Option<AddCollectionContext>)
        ensures
            *r == old(self).collection_context(),
            *final(self) == old(self).with_collection_context(*final(r)),
    ;

    /// This value as a Python resource, of a kind that has a Starlark value.
    fn as_python_resource(&self) -> (r: PythonResource<'_>)
        ensures
            starlark_value_kind(resource_kind_of(r)) is Some,
    ;

    /// The Starlark attributes that the add-collection context defines.
    fn add_collection_context_attrs(&self) -> (r: Vec<&'static str>)
        ensures
            r@.len() == 7,
            forall|i: int| 0 <= i < 7 ==> #[trigger] r@[i]@ == context_attribute_names()[i],
    {
        context_attribute_list()
    }

    /// Reads a context attribute; the caller has checked that `attribute` is one.
    fn get_attr_add_collection_context(&self, attribute: &str) -> (r: AttrValue)
        requires
            context_attribute(attribute@) is Some,
        ensures
            r@ == context_attr_value(
                option_context_view(self.collection_context()),
                context_attribute(attribute@).unwrap(),
            ),
    {
        get_context_attr(self.add_collection_context(), attribute)
    }

    /// Sets a context attribute; with a context, `attribute` must be one.
    fn set_attr_add_collection_context(&mut self, attribute: &str, value: &InputValue) -> (r:
        Result<(), ResourceValueError>)
        requires
            old(self).collection_context() is None || context_attribute(attribute@) is Some,
        ensures
            *final(self) == old(self).with_collection_context(final(self).collection_context()),
            set_outcome(
                option_context_view(old(self).collection_context()),
                attribute@,
                value@,
                result_view(r),
                option_context_view(final(self).collection_context()),
            ),
            r is Err ==> *final(self) == *old(self),
    {
        let context = self.add_collection_context_mut();
        let r = set_context_attr(context, attribute, value);
        proof {
            old(self).lemma_with_collection_context(*final(context), *final(context));
        }
        r
    }
}

/// What reading attribute `attribute` of a value of type `value_type` gives when
/// the attribute is none of the value's own: a context attribute, or an error.
pub open spec fn context_or_missing_attr(
    attribute: Seq<char>,
    value_type: Seq<char>,
    c: Option<ContextView>,
) -> Result<AttrView, ErrorView> {
    match context_attribute(attribute) {
        Some(a) => Ok(context_attr_value(c, a)),
        None => Err(ErrorView::GetAttrNotSupported { attribute, value_type }),
    }
}

/// Reads an attribute that is none of the value's own.
fn get_other_attr<T: ResourceCollectionContext>(
    value: &T,
    attribute: &str,
    value_type: &str,
) -> (r: Result<AttrValue, ResourceValueError>)
    ensures
        result_view(r) == context_or_missing_attr(
            attribute@,
            value_type@,
            option_context_view(value.collection_context()),
        ),
{
    match ContextAttribute::from_name(attribute) {
        Some(_) => Ok(value.get_attr_add_collection_context(attribute)),
        None => Err(
            ResourceValueError::GetAttrNotSupported {
                attribute: String::from_str(attribute),
                value_type: String::from_str(value_type),
            },
        ),
    }
}

/// The Starlark type name of extension module values.
pub open spec fn extension_module_type() -> Seq<char> {
    "PythonExtensionModule"@
}

/// The text that shows an extension module named `name`.
pub open spec fn extension_module_text(name: Seq<char>) -> Seq<char> {
    "PythonExtensionModule<name="@ + name + ">"@
}

/// What reading attribute `attribute` of an extension module value gives, for a
/// module named `name` that is or is not in the standard library.
pub open spec fn extension_module_attr(
    attribute: Seq<char>,
    name: Seq<char>,
    is_stdlib: bool,
    c: Option<ContextView>,
) -> Result<AttrView, ErrorView> {
    if attribute == "is_stdlib"@ {
        Ok(AttrView::Bool(is_stdlib))
    } else if attribute == "name"@ {
        Ok(AttrView::Str(name))
    } else {
        context_or_missing_attr(attribute, extension_module_type(), c)
    }
}

/// Whether an extension module value has attribute `attribute`.
pub open spec fn extension_module_has(attribute: Seq<char>) -> bool {
    attribute == "is_stdlib"@ || attribute == "name"@ || context_attribute(attribute) is Some
}

/// A Starlark value that holds a Python extension module.
#[derive(Clone, Debug)]
pub struct PythonExtensionModuleValue {
    pub inner: PythonExtensionModule,
    pub add_context: Option<AddCollectionContext>,
}

impl PythonExtensionModuleValue {
    /// A value for `em`, without an add-collection context.
    pub fn new(em: PythonExtensionModule) -> (r: Self)
        ensures
            r.inner == em,
            r.add_context is None,
    {
        PythonExtensionModuleValue { inner: em, add_context: None }
    }

    /// The Starlark type name of these values.
    pub fn value_type() -> (r: &'static str)
        ensures
            r@ == extension_module_type(),
    {
        "PythonExtensionModule"
    }

    /// The text that shows this value, with the module's name.
    pub fn to_str(&self) -> (r: String)
        ensures
            r@ == extension_module_text(module_name(self.inner)),
    {
        let name = extension_module_name(&self.inner);
        let r = String::from_str("PythonExtensionModule<name=").concat(name.as_str()).concat(">");
        assert(r@ == extension_module_text(name@));
        r
    }

    /// The text that shows this value; the same as [`Self::to_str`].
    pub fn to_repr(&self) -> (r: String)
        ensures
            r@ == extension_module_text(module_name(self.inner)),
    {
        self.to_str()
    }

    /// Reads an attribute: `is_stdlib`, `name`, or a context attribute.
    pub fn get_attr(&self, attribute: &str) -> (r: Result<AttrValue, ResourceValueError>)
        ensures
            result_view(r) == extension_module_attr(
                attribute@,
                module_name(self.inner),
                module_is_stdlib(self.inner),
                option_context_view(self.add_context),
            ),
    {
        proof {
            reveal_strlit("is_stdlib");
            reveal_strlit("name");
            assert("name"@.len() != "is_stdlib"@.len());
        }
        if text_equals(attribute, "is_stdlib") {
            Ok(AttrValue::Bool(extension_module_is_stdlib(&self.inner)))
        } else if text_equals(attribute, "name") {
            Ok(AttrValue::Str(extension_module_name(&self.inner)))
        } else {
            get_other_attr(self, attribute, "PythonExtensionModule")
        }
    }

    /// Whether the value has attribute `attribute`.
    pub fn has_attr(&self, attribute: &str) -> (r: bool)
        ensures
            r == extension_module_has(attribute@),
    {
        if text_equals(attribute, "is_stdlib") {
            true
        } else if text_equals(attribute, "name") {
            true
        } else {
            ContextAttribute::from_name(attribute).is_some()
        }
    }

    /// Sets an attribute; only context attributes can be set.
    pub fn set_attr(&mut self, attribute: &str, value: &InputValue) -> (r: Result<
        (),
        ResourceValueError,
    >)
        requires
            old(self).add_context is None || context_attribute(attribute@) is Some,
        ensures
            final(self).inner == old(self).inner,
            set_outcome(
                option_context_view(old(self).add_context),
                attribute@,
                value@,
                result_view(r),
                option_context_view(final(self).add_context),
            ),
            r is Err ==> *final(self) == *old(self),
    {
        self.set_attr_add_collection_context(attribute, value)
    }
}

impl ResourceCollectionContext for PythonExtensionModuleValue {
    open spec fn collection_context(&self) -> Option<AddCollectionContext> {
        self.add_context
    }

    open spec fn with_collection_context(&self, c: Option<AddCollectionContext>) -> Self {
        PythonExtensionModuleValue { inner: self.inner, add_context: c }
    }

    proof fn lemma_with_collection_context(
        &self,
        c: Option<AddCollectionContext>,
        d: Option<AddCollectionContext>,
    ) {
    }

    fn add_collection_context(&self) -> (r: &Option<AddCollectionContext>) {
        &self.add_context
    }

    fn add_collection_context_mut(&mut self) -> (r: &mut Option<AddCollectionContext>) {
        &mut self.add_context
    }

    fn as_python_resource(&self) -> (r: PythonResource<'_>)
        ensures
            resource_kind_of(r) == ResourceKind::ExtensionModule,
            resource_extension_module(r) == Some(self.inner),
    {
        extension_module_resource(&self.inner)
    }
}

/// The Starlark type name of file values.
pub open spec fn file_type() -> Seq<char> {
    "File"@
}

/// The text of a boolean.
pub open spec fn bool_text(b: bool) -> Seq<char> {
    if b {
        "true"@
    } else {
        "false"@
    }
}

/// The text that shows a file with path `path`.
pub open spec fn file_text(path: Seq<char>, executable: bool) -> Seq<char> {
    "File<path="@ + path + ", is_executable="@ + bool_text(executable) + ">"@
}

/// What reading attribute `attribute` of a file value gives, for a file with
/// path `path` that is or is not executable.
pub open spec fn file_attr(
    attribute: Seq<char>,
    path: Seq<char>,
    executable: bool,
    c: Option<ContextView>,
) -> Result<AttrView, ErrorView> {
    if attribute == "path"@ {
        Ok(AttrView::Str(path))
    } else if attribute == "is_executable"@ {
        Ok(AttrView::Bool(executable))
    } else {
        context_or_missing_attr(attribute, file_type(), c)
    }
}

/// Whether a file value has attribute `attribute`.
pub open spec fn file_has(attribute: Seq<char>) -> bool {
    attribute == "path"@ || attribute == "is_executable"@ || context_attribute(attribute) is Some
}

/// A Starlark value that holds a file.
#[derive(Clone, Debug)]
pub struct FileValue {
    pub inner: File,
    pub add_context: Option<AddCollectionContext>,
}

impl FileValue {
    /// A value for `file`, without an add-collection context.
    pub fn new(file: File) -> (r: Self)
        ensures
            r.inner == file,
            r.add_context is None,
    {
        FileValue { inner: file, add_context: None }
    }

    /// The Starlark type name of these values.
    pub fn value_type() -> (r: &'static str)
        ensures
            r@ == file_type(),
    {
        "File"
    }

    /// The text that shows this value, with the file's path and whether it is executable.
    pub fn to_str(&self) -> (r: String)
        ensures
            r@ == file_text(file_path(self.inner), file_executable(self.inner)),
    {
        let path = file_path_string(&self.inner);
        let executable = file_is_executable(&self.inner);
        let r = String::from_str("File<path=").concat(path.as_str()).concat(", is_executable=");
        let r = if executable {
            r.concat("true")
        } else {
            r.concat("false")
        };
        let r = r.concat(">");
        assert(r@ == file_text(path@, executable));
        r
    }

    /// The text that shows this value; the same as [`Self::to_str`].
    pub fn to_repr(&self) -> (r: String)
        ensures
            r@ == file_text(file_path(self.inner), file_executable(self.inner)),
    {
        self.to_str()
    }

    /// Reads an attribute: `path`, `is_executable`, or a context attribute.
    pub fn get_attr(&self, attribute: &str) -> (r: Result<AttrValue, ResourceValueError>)
        ensures
            result_view(r) == file_attr(
                attribute@,
                file_path(self.inner),
                file_executable(self.inner),
                option_context_view(self.add_context),
            ),
    {
        proof {
            reveal_strlit("path");
            reveal_strlit("is_executable");
            assert("path"@.len() != "is_executable"@.len());
        }
        if text_equals(attribute, "path") {
            Ok(AttrValue::Str(file_path_string(&self.inner)))
        } else if text_equals(attribute, "is_executable") {
            Ok(AttrValue::Bool(file_is_executable(&self.inner)))
        } else {
            get_other_attr(self, attribute, "File")
        }
    }

    /// Whether the value has attribute `attribute`.
    pub fn has_attr(&self, attribute: &str) -> (r: bool)
        ensures
            r == file_has(attribute@),
    {
        if text_equals(attribute, "path") {
            true
        } else if text_equals(attribute, "is_executable") {
            true
        } else {
            ContextAttribute::from_name(attribute).is_some()
        }
    }

    /// Sets an attribute; only context attributes can be set.
    pub fn set_attr(&mut self, attribute: &str, value: &InputValue) -> (r: Result<
        (),
        ResourceValueError,
    >)
        requires
            old(self).add_context is None || context_attribute(attribute@) is Some,
        ensures
            final(self).inner == old(self).inner,
            set_outcome(
                option_context_view(old(self).add_context),
                attribute@,
                value@,
                result_view(r),
                option_context_view(final(self).add_context),
            ),
            r is Err ==> *final(self) == *old(self),
    {
        self.set_attr_add_collection_context(attribute, value)
    }
}

impl ResourceCollectionContext for FileValue {
    open spec fn collection_context(&self) -> Option<AddCollectionContext> {
        self.add_context
    }

    open spec fn with_collection_context(&self, c: Option<AddCollectionContext>) -> Self {
        FileValue { inner: self.inner, add_context: c }
    }

    proof fn lemma_with_collection_context(
        &self,
        c: Option<AddCollectionContext>,
        d: Option<AddCollectionContext>,
    ) {
    }

    fn add_collection_context(&self) -> (r: &Option<AddCollectionContext>) {
        &self.add_context
    }

    fn add_collection_context_mut(&mut self) -> (r: &mut Option<AddCollectionContext>) {
        &mut self.add_context
    }

    fn as_python_resource(&self) -> (r: PythonResource<'_>)
        ensures
            resource_kind_of(r) == ResourceKind::File,
            resource_file(r) == Some(self.inner),
    {
        file_resource(&self.inner)
    }
}

} // verus!

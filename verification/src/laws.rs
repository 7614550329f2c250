use vstd::prelude::*;

use crate::context::{
    attribute_name, context_after_set, context_attr_value, context_attribute,
    context_attribute_names, ContextAttribute, ContextView,
};
use crate::location::{
    lemma_parsed_text_round_trip, location_attr, location_from_value, parse_location,
};
use crate::location::{location_text, LocationView};
use crate::resource::{
    context_source, starlark_value_kind, value_kind_of_type, value_kind_type, ResourceKind,
    ResourceValueKind,
};
use crate::resource_value::{
    extension_module_attr, extension_module_has, extension_module_text, file_attr, file_has,
    file_text,
};
use crate::value::{none_type, string_type, AttrView, InputView};

verus! {

/// Whether a Starlark value `v`, handed to a setter, carries what `x` shows:
/// the same truth value for a boolean, the same text in a string for a text,
/// and `None` for `None`.
pub open spec fn input_carries(v: InputView, x: AttrView) -> bool {
    match x {
        AttrView::Bool(b) => v.truth == b,
        AttrView::Str(s) => v.value_type == string_type() && v.text == s,
        AttrView::NoneValue => v.value_type == none_type(),
    }
}

/// What a context attribute reads as after it was set to `v`.
pub open spec fn written_attr(a: ContextAttribute, v: InputView) -> AttrView {
    match a {
        ContextAttribute::Location => match location_from_value(v) {
            Ok(l) => location_attr(l),
            Err(_) => AttrView::NoneValue,
        },
        ContextAttribute::LocationFallback => match location_from_value(v) {
            Ok(l) => location_attr(l),
            Err(_) => AttrView::NoneValue,
        },
        _ => AttrView::Bool(v.truth),
    }
}

/// Each context attribute name denotes that attribute, and the names listed as
/// context attributes are exactly the names that denote one.
pub proof fn lemma_attribute_names(a: ContextAttribute, s: Seq<char>)
    ensures
        context_attribute(attribute_name(a)) == Some(a),
        context_attribute(s) is Some <==> context_attribute_names().contains(s),
{
    reveal_strlit("add_include");
    reveal_strlit("add_location");
    reveal_strlit("add_location_fallback");
    reveal_strlit("add_source");
    reveal_strlit("add_bytecode_optimization_level_zero");
    reveal_strlit("add_bytecode_optimization_level_one");
    reveal_strlit("add_bytecode_optimization_level_two");
    let names = context_attribute_names();
    assert(names[0] == attribute_name(ContextAttribute::Include));
    assert(names[1] == attribute_name(ContextAttribute::Location));
    assert(names[2] == attribute_name(ContextAttribute::LocationFallback));
    assert(names[3] == attribute_name(ContextAttribute::Source));
    assert(names[4] == attribute_name(ContextAttribute::OptimizeLevelZero));
    assert(names[5] == attribute_name(ContextAttribute::OptimizeLevelOne));
    assert(names[6] == attribute_name(ContextAttribute::OptimizeLevelTwo));
    assert(names[0].len() == 11 && names[1].len() == 12 && names[2].len() == 21);
    assert(names[3].len() == 10 && names[4].len() == 36 && names[5].len() == 35);
    assert(names[6].len() == 35);
    assert(attribute_name(ContextAttribute::OptimizeLevelOne)[32] == 'o');
    assert(attribute_name(ContextAttribute::OptimizeLevelTwo)[32] == 't');
    if context_attribute(s) is Some {
        assert(names.contains(s));
    }
    if names.contains(s) {
        let i = choose|i: int| 0 <= i < names.len() && names[i] == s;
        assert(0 <= i < 7);
    }
}

/// A context attribute that was set reads back as what was written: the truth
/// value for a flag, the text of the location (or `None`) for a location.
pub proof fn lemma_set_then_get(c: ContextView, a: ContextAttribute, v: InputView)
    ensures
        context_after_set(c, a, v) matches Ok(c2) ==> context_attr_value(Some(c2), a)
            == written_attr(a, v),
{
}

/// Whether setting attribute `a` to `v` succeeds does not depend on the context
/// it is set in.
pub proof fn lemma_set_success_is_independent_of_context(
    c: ContextView,
    d: ContextView,
    a: ContextAttribute,
    v: InputView,
)
    ensures
        context_after_set(c, a, v) is Ok <==> context_after_set(d, a, v) is Ok,
{
}

/// Setting an attribute a second time to the same value changes nothing more.
pub proof fn lemma_set_twice(c: ContextView, a: ContextAttribute, v: InputView)
    ensures
        context_after_set(c, a, v) matches Ok(c1) ==> context_after_set(c1, a, v) == Ok::<
            ContextView,
            crate::error::ErrorView,
        >(c1),
{
}

/// Setting two different context attributes gives the same context in either order.
pub proof fn lemma_set_commutes(
    c: ContextView,
    a: ContextAttribute,
    b: ContextAttribute,
    va: InputView,
    vb: InputView,
)
    requires
        a != b,
        context_after_set(c, a, va) is Ok,
        context_after_set(c, b, vb) is Ok,
    ensures
        context_after_set(c, a, va) matches Ok(ca) && context_after_set(c, b, vb) matches Ok(cb)
            && context_after_set(ca, b, vb) matches Ok(cab) && context_after_set(cb, a, va) matches Ok(
            cba,
        ) && cab == cba,
{
}

/// Setting one context attribute leaves every other one as it was.
pub proof fn lemma_set_leaves_others(
    c: ContextView,
    a: ContextAttribute,
    b: ContextAttribute,
    v: InputView,
)
    requires
        a != b,
    ensures
        context_after_set(c, a, v) matches Ok(c2) ==> context_attr_value(Some(c2), b)
            == context_attr_value(Some(c), b),
{
}

/// Setting a location attribute to a string that names a location succeeds, and
/// the attribute then reads back as that same string.
pub proof fn lemma_location_string_round_trip(c: ContextView, a: ContextAttribute, v: InputView)
    requires
        a == ContextAttribute::Location || a == ContextAttribute::LocationFallback,
        v.value_type == string_type(),
        parse_location(v.text) is Ok,
        a == ContextAttribute::Location ==> parse_location(v.text) != Ok::<
            Option<crate::location::LocationView>,
            crate::error::ErrorView,
        >(None),
    ensures
        context_after_set(c, a, v) is Ok,
        context_after_set(c, a, v) matches Ok(c2) ==> context_attr_value(Some(c2), a)
            == if v.text == crate::location::default_text() {
            AttrView::NoneValue
        } else {
            AttrView::Str(v.text)
        },
{
    reveal_strlit("NoneType");
    reveal_strlit("string");
    assert(string_type().len() != none_type().len());
    lemma_parsed_text_round_trip(v.text);
}

/// Writing back what a context attribute reads leaves the context unchanged.
pub proof fn lemma_write_back(c: ContextView, a: ContextAttribute, v: InputView)
    requires
        input_carries(v, context_attr_value(Some(c), a)),
    ensures
        context_after_set(c, a, v) == Ok::<ContextView, crate::error::ErrorView>(c),
{
    reveal_strlit("NoneType");
    reveal_strlit("string");
    assert(string_type().len() != none_type().len());
    match a {
        ContextAttribute::Location => {
            crate::location::lemma_location_text_round_trip(c.location);
        },
        ContextAttribute::LocationFallback => {
            match c.location_fallback {
                Some(l) => {
                    crate::location::lemma_location_text_round_trip(l);
                },
                None => {},
            }
        },
        _ => {},
    }
}

/// Every resource kind that can become a Starlark value becomes a value whose
/// type name leads back to that value kind, so its context can be read.
pub proof fn lemma_compatible_values_have_contexts(
    k: crate::resource::ResourceKind,
    label: Seq<char>,
)
    ensures
        starlark_value_kind(k) matches Some(vk) ==> context_source(value_kind_type(vk), label)
            == Ok::<ResourceValueKind, crate::error::ErrorView>(vk),
{
    reveal_strlit("PythonModuleSource");
    reveal_strlit("PythonPackageResource");
    reveal_strlit("PythonPackageDistributionResource");
    reveal_strlit("PythonExtensionModule");
    reveal_strlit("File");
    assert(value_kind_type(ResourceValueKind::ModuleSource).len() == 18);
    assert(value_kind_type(ResourceValueKind::PackageResource).len() == 21);
    assert(value_kind_type(ResourceValueKind::PackageDistributionResource).len() == 33);
    assert(value_kind_type(ResourceValueKind::ExtensionModule).len() == 21);
    assert(value_kind_type(ResourceValueKind::File).len() == 4);
    assert(value_kind_type(ResourceValueKind::PackageResource)[6] == 'P');
    assert(value_kind_type(ResourceValueKind::ExtensionModule)[6] == 'E');
    assert(value_kind_of_type(value_kind_type(ResourceValueKind::ModuleSource)) == Some(
        ResourceValueKind::ModuleSource,
    ));
}

/// An extension module value has exactly the attributes that it can read:
/// its own two, and the context attributes (which read as `None` without a context).
pub proof fn lemma_extension_module_has_what_it_reads(
    attribute: Seq<char>,
    name: Seq<char>,
    is_stdlib: bool,
    c: Option<ContextView>,
)
    ensures
        extension_module_has(attribute) <==> extension_module_attr(
            attribute,
            name,
            is_stdlib,
            c,
        ) is Ok,
{
}

/// A file value has exactly the attributes that it can read: its own two, and
/// the context attributes (which read as `None` without a context).
pub proof fn lemma_file_has_what_it_reads(
    attribute: Seq<char>,
    path: Seq<char>,
    executable: bool,
    c: Option<ContextView>,
)
    ensures
        file_has(attribute) <==> file_attr(attribute, path, executable, c) is Ok,
{
}

/// A relative-path location is written as `filesystem-relative:` followed by its
/// prefix unchanged, and parsing `filesystem-relative:` followed by any text gives
/// the relative path with exactly that text as its prefix.
pub proof fn lemma_relative_path_text(p: Seq<char>)
    ensures
        location_text(LocationView::RelativePath(p)) == "filesystem-relative:"@ + p,
        parse_location("filesystem-relative:"@ + p) == Ok::<
            Option<LocationView>,
            crate::error::ErrorView,
        >(Some(LocationView::RelativePath(p))),
        location_text(LocationView::InMemory) == "in-memory"@,
        parse_location("in-memory"@) == Ok::<Option<LocationView>, crate::error::ErrorView>(
            Some(LocationView::InMemory),
        ),
        parse_location("default"@) == Ok::<Option<LocationView>, crate::error::ErrorView>(None),
{
    crate::location::lemma_location_text_round_trip(LocationView::RelativePath(p));
    crate::location::lemma_location_text_round_trip(LocationView::InMemory);
    reveal_strlit("default");
}

/// An extension module value reads `name` as the module's whole name and
/// `is_stdlib` as its flag, and every context attribute as the context holds it.
pub proof fn lemma_extension_module_reads(
    name: Seq<char>,
    is_stdlib: bool,
    c: Option<ContextView>,
    a: ContextAttribute,
)
    ensures
        extension_module_attr("name"@, name, is_stdlib, c) == Ok::<
            AttrView,
            crate::error::ErrorView,
        >(AttrView::Str(name)),
        extension_module_attr("is_stdlib"@, name, is_stdlib, c) == Ok::<
            AttrView,
            crate::error::ErrorView,
        >(AttrView::Bool(is_stdlib)),
        extension_module_attr(attribute_name(a), name, is_stdlib, c) == Ok::<
            AttrView,
            crate::error::ErrorView,
        >(context_attr_value(c, a)),
{
    reveal_strlit("name");
    reveal_strlit("is_stdlib");
    assert("name"@.len() != "is_stdlib"@.len());
    lemma_attribute_names(a, attribute_name(a));
    lemma_attribute_names_are_not_own(a);
}

/// A file value reads `path` as the file's path and `is_executable` as its flag,
/// and every context attribute as the context holds it.
pub proof fn lemma_file_reads(
    path: Seq<char>,
    executable: bool,
    c: Option<ContextView>,
    a: ContextAttribute,
)
    ensures
        file_attr("path"@, path, executable, c) == Ok::<AttrView, crate::error::ErrorView>(
            AttrView::Str(path),
        ),
        file_attr("is_executable"@, path, executable, c) == Ok::<
            AttrView,
            crate::error::ErrorView,
        >(AttrView::Bool(executable)),
        file_attr(attribute_name(a), path, executable, c) == Ok::<
            AttrView,
            crate::error::ErrorView,
        >(context_attr_value(c, a)),
{
    reveal_strlit("path");
    reveal_strlit("is_executable");
    assert("path"@.len() != "is_executable"@.len());
    lemma_attribute_names(a, attribute_name(a));
    lemma_attribute_names_are_not_own(a);
}

/// No context attribute is named like one of the values' own attributes.
proof fn lemma_attribute_names_are_not_own(a: ContextAttribute)
    ensures
        attribute_name(a) != "name"@,
        attribute_name(a) != "is_stdlib"@,
        attribute_name(a) != "path"@,
        attribute_name(a) != "is_executable"@,
{
    reveal_strlit("name");
    reveal_strlit("is_stdlib");
    reveal_strlit("path");
    reveal_strlit("is_executable");
    reveal_strlit("add_include");
    reveal_strlit("add_location");
    reveal_strlit("add_location_fallback");
    reveal_strlit("add_source");
    reveal_strlit("add_bytecode_optimization_level_zero");
    reveal_strlit("add_bytecode_optimization_level_one");
    reveal_strlit("add_bytecode_optimization_level_two");
    assert(attribute_name(a)[0] == 'a');
}

/// The text of an extension module value is `PythonExtensionModule<name=`, the
/// module's whole name, and `>`; so different names give different texts.
pub proof fn lemma_extension_module_text(name: Seq<char>, other: Seq<char>)
    ensures
        extension_module_text(name) == "PythonExtensionModule<name="@ + name + ">"@,
        extension_module_text(name) == extension_module_text(other) ==> name == other,
{
    reveal_strlit("PythonExtensionModule<name=");
    reveal_strlit(">");
    let t = extension_module_text(name);
    let u = extension_module_text(other);
    if t == u {
        let k = "PythonExtensionModule<name="@.len() as int;
        assert(name =~= t.subrange(k, t.len() - 1));
        assert(other =~= u.subrange(k, u.len() - 1));
    }
}

/// The text of a file value is `File<path=`, the whole path, `, is_executable=`,
/// `true` or `false`, and `>`; so different files give different texts.
pub proof fn lemma_file_text(path: Seq<char>, executable: bool, other: Seq<char>, flag: bool)
    ensures
        file_text(path, executable) == "File<path="@ + path + ", is_executable="@ + (if executable {
            "true"@
        } else {
            "false"@
        }) + ">"@,
        file_text(path, executable) == file_text(other, flag) ==> path == other && executable
            == flag,
{
    reveal_strlit("File<path=");
    reveal_strlit(", is_executable=");
    reveal_strlit("true");
    reveal_strlit("false");
    reveal_strlit(">");
    let t = file_text(path, executable);
    let u = file_text(other, flag);
    if t == u {
        // The flag is read from the end: `true>` or `false>`.
        assert(t[t.len() - 2] == 'e');
        assert(executable ==> t[t.len() - 6] == '=');
        assert(!executable ==> t[t.len() - 6] == 'f');
        assert(flag ==> u[u.len() - 6] == '=');
        assert(!flag ==> u[u.len() - 6] == 'f');
        assert(executable == flag);
        let tail: int = if executable { 21 } else { 22 };
        assert(path =~= t.subrange(10, t.len() - tail));
        assert(other =~= u.subrange(10, u.len() - tail));
    }
}

/// Each resource kind that has a Starlark value becomes the value kind of the same
/// variant, named `Python<variant>` (`File` for files); no two kinds share a value kind.
pub proof fn lemma_resource_value_kinds(k: ResourceKind, j: ResourceKind)
    ensures
        starlark_value_kind(ResourceKind::ModuleSource) == Some(ResourceValueKind::ModuleSource),
        starlark_value_kind(ResourceKind::PackageResource) == Some(
            ResourceValueKind::PackageResource,
        ),
        starlark_value_kind(ResourceKind::PackageDistributionResource) == Some(
            ResourceValueKind::PackageDistributionResource,
        ),
        starlark_value_kind(ResourceKind::ExtensionModule) == Some(
            ResourceValueKind::ExtensionModule,
        ),
        starlark_value_kind(ResourceKind::File) == Some(ResourceValueKind::File),
        value_kind_type(ResourceValueKind::ModuleSource) == "PythonModuleSource"@,
        value_kind_type(ResourceValueKind::PackageResource) == "PythonPackageResource"@,
        value_kind_type(ResourceValueKind::PackageDistributionResource)
            == "PythonPackageDistributionResource"@,
        value_kind_type(ResourceValueKind::ExtensionModule) == "PythonExtensionModule"@,
        value_kind_type(ResourceValueKind::File) == "File"@,
        starlark_value_kind(k) is Some && starlark_value_kind(k) == starlark_value_kind(j) ==> k
            == j,
{
}

} // verus!

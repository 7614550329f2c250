use vstd::prelude::*;

use crate::error::{result_view, ErrorCode, ErrorView, ResourceValueError};
use crate::text::{is_prefix_of, starts_with, text_equals};
use crate::value::{none_type, string_type, AttrValue, AttrView, InputValue, InputView};

verus! {

/// Where a resource is loaded from.
#[derive(Clone, Debug, PartialEq, Eq)]
pub enum ResourceLocation {
    /// The resource is loaded from memory.
    InMemory,
    /// The resource is loaded from a path relative to a prefix.
    RelativePath(String),
}

/// The abstract form of a [`ResourceLocation`].
pub enum LocationView {
    InMemory,
    RelativePath(Seq<char>),
}

impl View for ResourceLocation {
    type V = LocationView;

    open spec fn view(&self) -> LocationView {
        match self {
            ResourceLocation::InMemory => LocationView::InMemory,
            ResourceLocation::RelativePath(p) => LocationView::RelativePath(p@),
        }
    }
}

/// The view of an optional location.
pub open spec fn option_location_view(l: Option<ResourceLocation>) -> Option<LocationView> {
    match l {
        Some(l) => Some(l@),
        None => None,
    }
}

/// The text that names the default location.
pub open spec fn default_text() -> Seq<char> {
    "default"@
}

/// The text that names the in-memory location.
pub open spec fn in_memory_text() -> Seq<char> {
    "in-memory"@
}

/// The text that starts a relative-path location.
pub open spec fn relative_prefix() -> Seq<char> {
    "filesystem-relative:"@
}

/// The text form of a location: `in-memory` or `filesystem-relative:<prefix>`.
pub open spec fn location_text(l: LocationView) -> Seq<char> {
    match l {
        LocationView::InMemory => in_memory_text(),
        LocationView::RelativePath(p) => relative_prefix() + p,
    }
}

/// The error for a string that names no location.
pub open spec fn bad_location_error(s: Seq<char>) -> ErrorView {
    ErrorView::Runtime {
        code: ErrorCode::IncorrectParameterType,
        message: "unable to convert value "@ + s + " to a resource location"@,
        label: "expected `default`, `in-memory`, or `filesystem-relative:*`; got "@ + s,
    }
}

/// The location that a string names: `default` names none, `in-memory` the
/// memory, `filesystem-relative:<prefix>` a relative path; anything else is an error.
pub open spec fn parse_location(s: Seq<char>) -> Result<Option<LocationView>, ErrorView> {
    if s == default_text() {
        Ok(None)
    } else if s == in_memory_text() {
        Ok(Some(LocationView::InMemory))
    } else if is_prefix_of(relative_prefix(), s) {
        Ok(Some(LocationView::RelativePath(s.skip(relative_prefix().len() as int))))
    } else {
        Err(bad_location_error(s))
    }
}

/// The location that a Starlark value names: `None` names none, a string is
/// parsed, a value of any other type is an error.
pub open spec fn location_from_value(v: InputView) -> Result<Option<LocationView>, ErrorView> {
    if v.value_type == none_type() {
        Ok(None)
    } else if v.value_type == string_type() {
        parse_location(v.text)
    } else {
        Err(
            ErrorView::Runtime {
                code: ErrorCode::IncorrectParameterType,
                message: "unable to convert value "@ + v.value_type + " to resource location"@,
                label: "resource location conversion"@,
            },
        )
    }
}

/// The Starlark value that shows an optional location: `None`, or its text.
pub open spec fn location_attr(l: Option<LocationView>) -> AttrView {
    match l {
        None => AttrView::NoneValue,
        Some(l) => AttrView::Str(location_text(l)),
    }
}

impl ResourceLocation {
    /// The text form of this location.
    pub fn to_text(&self) -> (r: String)
        ensures
            r@ == location_text(self@),
    {
        match self {
            ResourceLocation::InMemory => String::from_str("in-memory"),
            ResourceLocation::RelativePath(prefix) => String::from_str(
                "filesystem-relative:",
            ).concat(prefix.as_str()),
        }
    }

    /// A copy of this location.
    pub fn duplicate(&self) -> (r: ResourceLocation)
        ensures
            r@ == self@,
    {
        match self {
            ResourceLocation::InMemory => ResourceLocation::InMemory,
            ResourceLocation::RelativePath(prefix) => ResourceLocation::RelativePath(prefix.clone()),
        }
    }
}

/// A location that may be left to a default.
#[derive(Clone, Debug, PartialEq, Eq)]
pub struct OptionalResourceLocation {
    pub inner: Option<ResourceLocation>,
}

impl View for OptionalResourceLocation {
    type V = Option<LocationView>;

    open spec fn view(&self) -> Option<LocationView> {
        option_location_view(self.inner)
    }
}

impl OptionalResourceLocation {
    /// Parses a location from its text.
    pub fn try_from_str(s: &str) -> (r: Result<OptionalResourceLocation, ResourceValueError>)
        ensures
            result_view(r) == parse_location(s@),
    {
        if text_equals(s, "default") {
            Ok(OptionalResourceLocation { inner: None })
        } else if text_equals(s, "in-memory") {
            Ok(OptionalResourceLocation { inner: Some(ResourceLocation::InMemory) })
        } else if starts_with(s, "filesystem-relative:") {
            let start = "filesystem-relative:".unicode_len();
            let prefix = s.substring_char(start, s.unicode_len());
            Ok(
                OptionalResourceLocation {
                    inner: Some(ResourceLocation::RelativePath(String::from_str(prefix))),
                },
            )
        } else {
            Err(
                ResourceValueError::Runtime {
                    code: ErrorCode::IncorrectParameterType,
                    message: String::from_str("unable to convert value ").concat(s).concat(
                        " to a resource location",
                    ),
                    label: String::from_str(
                        "expected `default`, `in-memory`, or `filesystem-relative:*`; got ",
                    ).concat(s),
                },
            )
        }
    }

    /// Converts a Starlark value to a location.
    pub fn try_from_value(value: &InputValue) -> (r: Result<
        OptionalResourceLocation,
        ResourceValueError,
    >)
        ensures
            result_view(r) == location_from_value(value@),
    {
        if text_equals(value.value_type.as_str(), "NoneType") {
            Ok(OptionalResourceLocation { inner: None })
        } else if text_equals(value.value_type.as_str(), "string") {
            OptionalResourceLocation::try_from_str(value.text.as_str())
        } else {
            Err(
                ResourceValueError::Runtime {
                    code: ErrorCode::IncorrectParameterType,
                    message: String::from_str("unable to convert value ").concat(
                        value.value_type.as_str(),
                    ).concat(" to resource location"),
                    label: String::from_str("resource location conversion"),
                },
            )
        }
    }

    /// The Starlark value that shows this location.
    pub fn to_value(&self) -> (r: AttrValue)
        ensures
            r@ == location_attr(self@),
    {
        match &self.inner {
            Some(l) => AttrValue::Str(l.to_text()),
            None => AttrValue::NoneValue,
        }
    }

    /// The location itself, if one was given.
    pub fn into_location(self) -> (r: Option<ResourceLocation>)
        ensures
            r == self.inner,
    {
        self.inner
    }
}

/// Every location is read back from its own text form.
pub proof fn lemma_location_text_round_trip(l: LocationView)
    ensures
        parse_location(location_text(l)) == Ok::<Option<LocationView>, ErrorView>(Some(l)),
{
    reveal_strlit("default");
    reveal_strlit("in-memory");
    reveal_strlit("filesystem-relative:");
    match l {
        LocationView::InMemory => {},
        LocationView::RelativePath(p) => {
            let t = relative_prefix() + p;
            assert(t[0] == 'f');
            assert(t.take(relative_prefix().len() as int) =~= relative_prefix());
            assert(t.skip(relative_prefix().len() as int) =~= p);
        },
    }
}

/// A text names the default exactly when it is `default`, and a text that
/// names a location is that location's text form.
pub proof fn lemma_parsed_text_round_trip(s: Seq<char>)
    ensures
        parse_location(s) == Ok::<Option<LocationView>, ErrorView>(None) <==> s == default_text(),
        parse_location(s) matches Ok(Some(l)) ==> location_text(l) == s,
{
    reveal_strlit("default");
    reveal_strlit("in-memory");
    reveal_strlit("filesystem-relative:");
    if !(s == default_text()) && !(s == in_memory_text()) && is_prefix_of(relative_prefix(), s) {
        assert(relative_prefix() + s.skip(relative_prefix().len() as int) =~= s);
    }
}

} // verus!

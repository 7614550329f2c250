use vstd::prelude::*;

verus! {

/// The value of an attribute read from a resource, as Starlark would see it.
#[derive(Clone, Debug, PartialEq, Eq)]
pub enum AttrValue {
    /// Starlark's `None`.
    NoneValue,
    /// A Starlark boolean.
    Bool(bool),
    /// A Starlark string.
    Str(String),
}

/// The abstract form of an [`AttrValue`].
pub enum AttrView {
    NoneValue,
    Bool(bool),
    Str(Seq<char>),
}

impl View for AttrValue {
    type V = AttrView;

    open spec fn view(&self) -> AttrView {
        match self {
            AttrValue::NoneValue => AttrView::NoneValue,
            AttrValue::Bool(b) => AttrView::Bool(*b),
            AttrValue::Str(s) => AttrView::Str(s@),
        }
    }
}

/// What the resource logic reads of a Starlark value that a script hands in:
/// the name of its type, its truth value, and its text when it is a string.
#[derive(Clone, Debug, PartialEq, Eq)]
pub struct InputValue {
    pub value_type: String,
    pub truth: bool,
    pub text: String,
}

/// The abstract form of an [`InputValue`].
pub struct InputView {
    pub value_type: Seq<char>,
    pub truth: bool,
    pub text: Seq<char>,
}

impl View for InputValue {
    type V = InputView;

    open spec fn view(&self) -> InputView {
        InputView { value_type: self.value_type@, truth: self.truth, text: self.text@ }
    }
}

/// The Starlark type name of `None`.
pub open spec fn none_type() -> Seq<char> {
    "NoneType"@
}

/// The Starlark type name of strings.
pub open spec fn string_type() -> Seq<char> {
    "string"@
}

} // verus!

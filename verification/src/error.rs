use vstd::prelude::*;

verus! {

/// The code that a runtime error carries.
#[derive(Clone, Copy, Debug, PartialEq, Eq, Structural)]
pub enum ErrorCode {
    /// A parameter of the wrong type or form (Starlark's incorrect-parameter-type code).
    IncorrectParameterType,
    /// An error raised by PyOxidizer itself.
    Pyoxidizer,
}

/// Errors raised while converting or manipulating resource values.
#[derive(Clone, Debug, PartialEq, Eq)]
pub enum ResourceValueError {
    /// A runtime error with a code, a message and a label.
    Runtime { code: ErrorCode, message: String, label: String },
    /// Reading an attribute that the value does not have.
    GetAttrNotSupported { attribute: String, value_type: String },
    /// Setting an attribute to a value that it cannot take.
    SetAttrNotSupported { attribute: String },
}

/// The abstract form of a [`ResourceValueError`].
pub enum ErrorView {
    Runtime { code: ErrorCode, message: Seq<char>, label: Seq<char> },
    GetAttrNotSupported { attribute: Seq<char>, value_type: Seq<char> },
    SetAttrNotSupported { attribute: Seq<char> },
}

impl View for ResourceValueError {
    type V = ErrorView;

    open spec fn view(&self) -> ErrorView {
        match self {
            ResourceValueError::Runtime { code, message, label } => ErrorView::Runtime {
                code: *code,
                message: message@,
                label: label@,
            },
            ResourceValueError::GetAttrNotSupported { attribute, value_type } =>
                ErrorView::GetAttrNotSupported { attribute: attribute@, value_type: value_type@ },
            ResourceValueError::SetAttrNotSupported { attribute } => ErrorView::SetAttrNotSupported {
                attribute: attribute@,
            },
        }
    }
}

/// A result taken by the views of its two sides.
pub open spec fn result_view<T: View, E: View>(r: Result<T, E>) -> Result<T::V, E::V> {
    match r {
        Ok(t) => Ok(t@),
        Err(e) => Err(e@),
    }
}

} // verus!

//! The uniform failure contract of the decode engine.
use vstd::prelude::*;

verus! {

/// Specification-level image of [`Error`], over sequences of characters.
pub enum ErrorV {
    TypeMismatch { expected: Seq<char>, found: Seq<char> },
    UnknownField { key: Seq<char>, valid: Seq<Seq<char>> },
    DeprecatedField { key: Seq<char>, replacement: Option<Seq<char>> },
    UnsupportedField { key: Seq<char>, guidance: Seq<char> },
    CapabilityDisabled { key: Seq<char> },
    MissingRequiredField { field: Seq<char> },
}

/// The error of a decode run.  Every failure aborts the run at once; a nested
/// run's error propagates unchanged to its parent.
///
/// - `TypeMismatch`: a value was present but not decodable as the type the
///   dispatch table demands for its key.
/// - `UnknownField`: the key is absent from the dispatch table; `valid`
///   enumerates the complete key set the table supports, for diagnostics.
/// - `DeprecatedField`: the key is deprecated; `replacement` names the
///   successor key where one exists.
/// - `UnsupportedField`: the key was deliberately retired; `guidance` tells
///   the user what to write instead.
/// - `CapabilityDisabled`: the key is known but its optional capability is
///   switched off in this deployment.
/// - `MissingRequiredField`: a mandatory key was never observed.
#[derive(Debug, Clone)]
pub enum Error {
    TypeMismatch { expected: String, found: String },
    UnknownField { key: String, valid: Vec<String> },
    DeprecatedField { key: String, replacement: Option<String> },
    UnsupportedField { key: String, guidance: String },
    CapabilityDisabled { key: String },
    MissingRequiredField { field: String },
}

impl View for Error {
    type V = ErrorV;

    open spec fn view(&self) -> ErrorV {
        match self {
            Error::TypeMismatch { expected, found } => ErrorV::TypeMismatch {
                expected: expected@,
                found: found@,
            },
            Error::UnknownField { key, valid } => ErrorV::UnknownField {
                key: key@,
                valid: valid.deep_view(),
            },
            Error::DeprecatedField { key, replacement } => ErrorV::DeprecatedField {
                key: key@,
                replacement: replacement.deep_view(),
            },
            Error::UnsupportedField { key, guidance } => ErrorV::UnsupportedField {
                key: key@,
                guidance: guidance@,
            },
            Error::CapabilityDisabled { key } => ErrorV::CapabilityDisabled { key: key@ },
            Error::MissingRequiredField { field } => ErrorV::MissingRequiredField { field: field@ },
        }
    }
}

impl DeepView for Error {
    type V = ErrorV;

    open spec fn deep_view(&self) -> ErrorV {
        self.view()
    }
}

/// The view of a fallible result: values deeply, errors through their view.
pub open spec fn dres<T: DeepView, E: View>(r: Result<T, E>) -> Result<T::V, E::V> {
    match r {
        Result::Ok(t) => Result::Ok(t.deep_view()),
        Result::Err(e) => Result::Err(e@),
    }
}

/// The view of a fallible result whose value is taken as it stands and whose
/// error is taken through its view.
pub open spec fn rres<T, E: View>(r: Result<T, E>) -> Result<T, E::V> {
    match r {
        Result::Ok(t) => Result::Ok(t),
        Result::Err(e) => Result::Err(e@),
    }
}

/// The view of a fallible result through the shallow views of both sides.
pub open spec fn vres<T: View, E: View>(r: Result<T, E>) -> Result<T::V, E::V> {
    match r {
        Result::Ok(t) => Result::Ok(t@),
        Result::Err(e) => Result::Err(e@),
    }
}

} // verus!

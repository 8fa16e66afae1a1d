//! The framework-level error type shared by every vendor backend.

use vstd::prelude::*;
use vstd::std_specs::convert::FromSpec;

verus! {

/// `anyhow::Error`, the catch-all error value that the API clients return.
/// It is carried through unchanged as the source of `QrmiError::Other`.
#[verifier::external_type_specification]
#[verifier::external_body]
pub struct ExAnyhowError(anyhow::Error);

/// The category of a `QrmiError`, for callers that only need to branch on it.
#[derive(Clone, Copy, Debug, PartialEq, Eq, Structural)]
pub enum QrmiErrorKind {
    InvalidInput,
    AuthenticationFailed,
    ResourceNotFound,
    TaskNotFound,
    Other,
}

/// An error reported by a quantum resource, classified by what went wrong.
#[derive(Debug)]
pub enum QrmiError {
    /// The request was malformed or its payload was rejected.
    InvalidInput(String),
    /// The credentials were missing or rejected.
    AuthenticationFailed(String),
    /// The backend or device named in the request does not exist.
    ResourceNotFound(String),
    /// The job or task named in the request does not exist.
    TaskNotFound(String),
    /// An error specific to the Pasqal backends.
    Pasqal(crate::pasqal::PasqalError),
    /// Anything that could not be classified; the original error is kept.
    Other(anyhow::Error),
}

/// The kind of each error, variant by variant; a Pasqal error has the kind
/// that `PasqalError::kind` gives it.
pub open spec fn spec_error_kind(e: QrmiError) -> QrmiErrorKind {
    match e {
        QrmiError::InvalidInput(_) => QrmiErrorKind::InvalidInput,
        QrmiError::AuthenticationFailed(_) => QrmiErrorKind::AuthenticationFailed,
        QrmiError::ResourceNotFound(_) => QrmiErrorKind::ResourceNotFound,
        QrmiError::TaskNotFound(_) => QrmiErrorKind::TaskNotFound,
        QrmiError::Pasqal(p) => crate::pasqal::spec_pasqal_kind(p),
        QrmiError::Other(_) => QrmiErrorKind::Other,
    }
}

impl QrmiError {
    /// The category of this error.
    pub fn kind(&self) -> (k: QrmiErrorKind)
        ensures
            k == spec_error_kind(*self),
            *self matches QrmiError::Pasqal(_) ==> k == QrmiErrorKind::InvalidInput,
    {
        match self {
            QrmiError::InvalidInput(_) => QrmiErrorKind::InvalidInput,
            QrmiError::AuthenticationFailed(_) => QrmiErrorKind::AuthenticationFailed,
            QrmiError::ResourceNotFound(_) => QrmiErrorKind::ResourceNotFound,
            QrmiError::TaskNotFound(_) => QrmiErrorKind::TaskNotFound,
            QrmiError::Pasqal(p) => p.kind(),
            QrmiError::Other(_) => QrmiErrorKind::Other,
        }
    }
}

impl From<crate::pasqal::PasqalError> for QrmiError {
    fn from(e: crate::pasqal::PasqalError) -> (r: QrmiError)
        ensures
            r == QrmiError::Pasqal(e),
    {
        QrmiError::Pasqal(e)
    }
}

impl vstd::std_specs::convert::FromSpecImpl<crate::pasqal::PasqalError> for QrmiError {
    open spec fn obeys_from_spec() -> bool {
        true
    }

    open spec fn from_spec(e: crate::pasqal::PasqalError) -> QrmiError {
        QrmiError::Pasqal(e)
    }
}

/// A Pasqal error that reaches callers as a `QrmiError` is reported as
/// invalid input, whatever its variant.
pub proof fn lemma_pasqal_errors_are_invalid_input(e: crate::pasqal::PasqalError)
    ensures
        spec_error_kind(QrmiError::from_spec(e)) == QrmiErrorKind::InvalidInput,
        spec_error_kind(QrmiError::Pasqal(e)) == QrmiErrorKind::InvalidInput,
{
}

/// Converting a Pasqal error into a `QrmiError` (what `?` does) wraps it
/// unchanged in the `Pasqal` variant: the variant and its text survive.
pub proof fn lemma_pasqal_conversion_wraps(e: crate::pasqal::PasqalError)
    ensures
        QrmiError::from_spec(e) == QrmiError::Pasqal(e),
        QrmiError::from_spec(e) matches QrmiError::Pasqal(inner) && inner == e,
{
}

} // verus!

//! Error conditions specific to the Pasqal backends, and the classification
//! of failed Pasqal Cloud / Pasqal Local API calls by HTTP status.

use vstd::prelude::*;
use crate::api_error::ApiError;
use crate::error::{QrmiError, QrmiErrorKind, spec_error_kind};

verus! {

/// Errors that only make sense for Pasqal's backends.
#[derive(Debug)]
pub enum PasqalError {
    /// The backend name did not match any known Pasqal Cloud device type.
    InvalidDeviceType(String),
    /// A CUDA-Q sequence payload could not be parsed as JSON.
    InvalidCudaqSequence(String),
}

/// Every Pasqal-specific error is a case of invalid input.
pub open spec fn spec_pasqal_kind(e: PasqalError) -> QrmiErrorKind {
    match e {
        PasqalError::InvalidDeviceType(_) => QrmiErrorKind::InvalidInput,
        PasqalError::InvalidCudaqSequence(_) => QrmiErrorKind::InvalidInput,
    }
}

/// The message of a Pasqal error: the text itself for an unknown device
/// type, a prefixed explanation for an unparsable payload.
pub open spec fn pasqal_error_text(e: PasqalError) -> Seq<char> {
    match e {
        PasqalError::InvalidDeviceType(s) => s@,
        PasqalError::InvalidCudaqSequence(s) => "failed to parse CUDA-Q sequence payload: "@ + s@,
    }
}

impl PasqalError {
    /// The framework-level category of this error.
    pub fn kind(&self) -> (k: QrmiErrorKind)
        ensures
            k == spec_pasqal_kind(*self),
    {
        match self {
            PasqalError::InvalidDeviceType(_) => QrmiErrorKind::InvalidInput,
            PasqalError::InvalidCudaqSequence(_) => QrmiErrorKind::InvalidInput,
        }
    }

    /// The error's message.
    pub fn to_text(&self) -> (s: String)
        ensures
            s@ == pasqal_error_text(*self),
    {
        match self {
            PasqalError::InvalidDeviceType(msg) => msg.clone(),
            PasqalError::InvalidCudaqSequence(msg) => {
                let mut s = String::from_str("failed to parse CUDA-Q sequence payload: ");
                s.append(msg.as_str());
                s
            },
        }
    }
}

/// What a request was about, which tells a missing backend from a missing job
/// when the API answers 404.
#[derive(Clone, Copy, Debug, PartialEq, Eq, Structural)]
pub enum ResourceKind {
    Backend,
    Job,
}

/// The framework error that a recognised status turns into; it is built from
/// the response body.
#[derive(Clone, Copy, Debug, PartialEq, Eq, Structural)]
pub enum StatusClass {
    InvalidInput,
    AuthenticationFailed,
    ResourceNotFound,
    TaskNotFound,
}

/// 400 and 422 are invalid input, 401 an authentication failure, 404 a
/// missing backend or job according to the resource kind; any other status
/// is not recognised.
pub open spec fn spec_classify_status(status: u16, kind: ResourceKind) -> Option<StatusClass> {
    if status == 400 || status == 422 {
        Some(StatusClass::InvalidInput)
    } else if status == 401 {
        Some(StatusClass::AuthenticationFailed)
    } else if status == 404 {
        match kind {
            ResourceKind::Backend => Some(StatusClass::ResourceNotFound),
            ResourceKind::Job => Some(StatusClass::TaskNotFound),
        }
    } else {
        None
    }
}

/// The framework error of a class, carrying the response body.
pub open spec fn spec_class_error(class: StatusClass, body: String) -> QrmiError {
    match class {
        StatusClass::InvalidInput => QrmiError::InvalidInput(body),
        StatusClass::AuthenticationFailed => QrmiError::AuthenticationFailed(body),
        StatusClass::ResourceNotFound => QrmiError::ResourceNotFound(body),
        StatusClass::TaskNotFound => QrmiError::TaskNotFound(body),
    }
}

/// The kind of the error that a class builds.
pub open spec fn spec_class_kind(class: StatusClass) -> QrmiErrorKind {
    match class {
        StatusClass::InvalidInput => QrmiErrorKind::InvalidInput,
        StatusClass::AuthenticationFailed => QrmiErrorKind::AuthenticationFailed,
        StatusClass::ResourceNotFound => QrmiErrorKind::ResourceNotFound,
        StatusClass::TaskNotFound => QrmiErrorKind::TaskNotFound,
    }
}

/// The outcome of classifying a failed call: the error `err`, which holds the
/// API error `api_error` where it holds one.
pub open spec fn spec_classify(
    err: anyhow::Error,
    api_error: Option<ApiError>,
    kind: ResourceKind,
) -> QrmiError {
    match api_error {
        Some(api) => match spec_classify_status(api.status@, kind) {
            Some(class) => spec_class_error(class, api.body),
            None => QrmiError::Other(err),
        },
        None => QrmiError::Other(err),
    }
}

impl StatusClass {
    /// Builds the framework error of this class with the given message.
    pub fn into_error(self, body: String) -> (e: QrmiError)
        ensures
            e == spec_class_error(self, body),
            spec_error_kind(e) == spec_class_kind(self),
    {
        match self {
            StatusClass::InvalidInput => QrmiError::InvalidInput(body),
            StatusClass::AuthenticationFailed => QrmiError::AuthenticationFailed(body),
            StatusClass::ResourceNotFound => QrmiError::ResourceNotFound(body),
            StatusClass::TaskNotFound => QrmiError::TaskNotFound(body),
        }
    }
}

/// The class of a failed request's status, or `None` where the status is not
/// one that this mapping recognises (403 included).
pub fn classify_status(status: u16, resource_kind: ResourceKind) -> (class: Option<StatusClass>)
    ensures
        class == spec_classify_status(status, resource_kind),
{
    if status == 400 || status == 422 {
        Some(StatusClass::InvalidInput)
    } else if status == 401 {
        Some(StatusClass::AuthenticationFailed)
    } else if status == 404 {
        match resource_kind {
            ResourceKind::Backend => Some(StatusClass::ResourceNotFound),
            ResourceKind::Job => Some(StatusClass::TaskNotFound),
        }
    } else {
        None
    }
}

/// Classifies a failed call: a recognised status becomes the matching error
/// with the response body as its message; anything else keeps `err`.
fn classify_api_failure(
    err: anyhow::Error,
    api_error: Option<ApiError>,
    resource_kind: ResourceKind,
) -> (e: QrmiError)
    ensures
        e == spec_classify(err, api_error, resource_kind),
{
    match api_error {
        Some(api) => match classify_status(api.status.as_u16(), resource_kind) {
            Some(class) => class.into_error(api.body),
            None => QrmiError::Other(err),
        },
        None => QrmiError::Other(err),
    }
}

/// Maps a failed Pasqal Cloud API call onto `QrmiError`. `api_error` is the
/// Pasqal Cloud `ApiError` that `err` holds, if it holds one (the caller finds
/// it by downcasting); `resource_kind` tells a missing backend from a missing
/// job on a 404. An unrecognised status, or an error that is no API error at
/// all, becomes `QrmiError::Other` with `err` kept as its source.
pub fn classify_cloud(
    err: anyhow::Error,
    api_error: Option<ApiError>,
    resource_kind: ResourceKind,
) -> (e: QrmiError)
    ensures
        e == spec_classify(err, api_error, resource_kind),
{
    classify_api_failure(err, api_error, resource_kind)
}

/// The same as `classify_cloud`, for a failed Pasqal Local API call.
pub fn classify_local(
    err: anyhow::Error,
    api_error: Option<ApiError>,
    resource_kind: ResourceKind,
) -> (e: QrmiError)
    ensures
        e == spec_classify(err, api_error, resource_kind),
{
    classify_api_failure(err, api_error, resource_kind)
}

/// The resource kind matters only for a 404: every other status is
/// classified alike for a backend and for a job.
pub proof fn lemma_kind_matters_only_for_not_found(status: u16)
    ensures
        status != 404 ==> spec_classify_status(status, ResourceKind::Backend)
            == spec_classify_status(status, ResourceKind::Job),
{
}

/// The kind of a classified failure, status by status: 400 and 422 are
/// invalid input, 401 an authentication failure, 404 a missing resource or
/// task, and every other status, like every error that holds no API error,
/// is `Other`.
pub proof fn lemma_classification_kinds(
    err: anyhow::Error,
    api_error: Option<ApiError>,
    kind: ResourceKind,
)
    ensures
        ({
            let k = spec_error_kind(spec_classify(err, api_error, kind));
            match api_error {
                None => k == QrmiErrorKind::Other,
                Some(api) => {
                    let status = api.status@;
                    &&& (status == 400 || status == 422) ==> k == QrmiErrorKind::InvalidInput
                    &&& status == 401 ==> k == QrmiErrorKind::AuthenticationFailed
                    &&& (status == 404 && kind == ResourceKind::Backend) ==> k
                        == QrmiErrorKind::ResourceNotFound
                    &&& (status == 404 && kind == ResourceKind::Job) ==> k
                        == QrmiErrorKind::TaskNotFound
                    &&& !(status == 400 || status == 401 || status == 404 || status == 422) ==> k
                        == QrmiErrorKind::Other
                },
            }
        }),
{
}

/// Nothing is lost in classification: a recognised status keeps the response
/// body as the error's message, and an unclassified failure keeps the
/// original error as its source.
pub proof fn lemma_classification_keeps_information(
    err: anyhow::Error,
    api_error: Option<ApiError>,
    kind: ResourceKind,
)
    ensures
        match spec_classify(err, api_error, kind) {
            QrmiError::InvalidInput(m) => api_error matches Some(api) && m == api.body,
            QrmiError::AuthenticationFailed(m) => api_error matches Some(api) && m == api.body,
            QrmiError::ResourceNotFound(m) => api_error matches Some(api) && m == api.body,
            QrmiError::TaskNotFound(m) => api_error matches Some(api) && m == api.body,
            QrmiError::Pasqal(_) => false,
            QrmiError::Other(source) => source == err,
        },
{
}

} // verus!

use vstd::prelude::*;

verus! {

/// Why a request was refused. Each kind answers with a fixed HTTP status.
#[derive(Debug)]
pub enum ApiError {
    /// The backend alias names no registered backend (carries the alias).
    BackendNotFound(String),
    /// The set identifier is not an unsigned integer.
    InvalidSetId,
    /// Authorization is required and the request carries no subject.
    MissingSubject,
    /// No audience rule matches the bucket (carries the bucket), on the set and sign paths.
    AudienceNotFound(String),
    /// No audience rule matches the bucket (carries the bucket), on the plain object path.
    AudienceForbidden(String),
    /// The bucket's audience has no tenant settings (carries the bucket).
    TenantSettingsNotFound(String),
    /// The referer is not allowed by the tenant's settings.
    RefererRejected,
    /// The method has no corresponding action (carries the method).
    InvalidMethod(String),
    /// The policy engine denied the request (carries its reason).
    PolicyDenied(String),
    /// The policy engine could not be reached (carries the failure).
    PolicyTransportError(String),
    /// The signer rejected the request (carries its message).
    SigningFailed(String),
}

/// The mathematical content of an [`ApiError`].
pub enum ErrorView {
    BackendNotFound(Seq<char>),
    InvalidSetId,
    MissingSubject,
    AudienceNotFound(Seq<char>),
    AudienceForbidden(Seq<char>),
    TenantSettingsNotFound(Seq<char>),
    RefererRejected,
    InvalidMethod(Seq<char>),
    PolicyDenied(Seq<char>),
    PolicyTransportError(Seq<char>),
    SigningFailed(Seq<char>),
}

impl ErrorView {
    /// The machine-readable name of the error's kind.
    pub open spec fn kind(self) -> Seq<char> {
        match self {
            ErrorView::BackendNotFound(_) => "BackendNotFound"@,
            ErrorView::InvalidSetId => "InvalidSetId"@,
            ErrorView::MissingSubject => "MissingSubject"@,
            ErrorView::AudienceNotFound(_) => "AudienceNotFound"@,
            ErrorView::AudienceForbidden(_) => "AudienceNotFound"@,
            ErrorView::TenantSettingsNotFound(_) => "TenantSettingsNotFound"@,
            ErrorView::RefererRejected => "RefererRejected"@,
            ErrorView::InvalidMethod(_) => "InvalidMethod"@,
            ErrorView::PolicyDenied(_) => "PolicyDenied"@,
            ErrorView::PolicyTransportError(_) => "PolicyTransportError"@,
            ErrorView::SigningFailed(_) => "SigningFailed"@,
        }
    }

    pub open spec fn status(self) -> u16 {
        match self {
            ErrorView::BackendNotFound(_) => STATUS_NOT_FOUND,
            ErrorView::AudienceNotFound(_) => STATUS_NOT_FOUND,
            ErrorView::TenantSettingsNotFound(_) => STATUS_NOT_FOUND,
            ErrorView::SigningFailed(_) => STATUS_UNPROCESSABLE_ENTITY,
            _ => STATUS_FORBIDDEN,
        }
    }
}

impl View for ApiError {
    type V = ErrorView;

    open spec fn view(&self) -> ErrorView {
        match self {
            ApiError::BackendNotFound(s) => ErrorView::BackendNotFound(s@),
            ApiError::InvalidSetId => ErrorView::InvalidSetId,
            ApiError::MissingSubject => ErrorView::MissingSubject,
            ApiError::AudienceNotFound(s) => ErrorView::AudienceNotFound(s@),
            ApiError::AudienceForbidden(s) => ErrorView::AudienceForbidden(s@),
            ApiError::TenantSettingsNotFound(s) => ErrorView::TenantSettingsNotFound(s@),
            ApiError::RefererRejected => ErrorView::RefererRejected,
            ApiError::InvalidMethod(s) => ErrorView::InvalidMethod(s@),
            ApiError::PolicyDenied(s) => ErrorView::PolicyDenied(s@),
            ApiError::PolicyTransportError(s) => ErrorView::PolicyTransportError(s@),
            ApiError::SigningFailed(s) => ErrorView::SigningFailed(s@),
        }
    }
}

pub const STATUS_OK: u16 = 200;
pub const STATUS_SEE_OTHER: u16 = 303;
pub const STATUS_FORBIDDEN: u16 = 403;
pub const STATUS_NOT_FOUND: u16 = 404;
pub const STATUS_UNPROCESSABLE_ENTITY: u16 = 422;

impl ApiError {
    /// The HTTP status that answers this error.
    pub fn status(&self) -> (r: u16)
        ensures
            r == self@.status(),
    {
        match self {
            ApiError::BackendNotFound(_) => STATUS_NOT_FOUND,
            ApiError::AudienceNotFound(_) => STATUS_NOT_FOUND,
            ApiError::TenantSettingsNotFound(_) => STATUS_NOT_FOUND,
            ApiError::SigningFailed(_) => STATUS_UNPROCESSABLE_ENTITY,
            _ => STATUS_FORBIDDEN,
        }
    }

    /// The machine-readable name of this error's kind.
    pub fn kind(&self) -> (r: &'static str)
        ensures
            r@ == self@.kind(),
    {
        match self {
            ApiError::BackendNotFound(_) => "BackendNotFound",
            ApiError::InvalidSetId => "InvalidSetId",
            ApiError::MissingSubject => "MissingSubject",
            ApiError::AudienceNotFound(_) => "AudienceNotFound",
            ApiError::AudienceForbidden(_) => "AudienceNotFound",
            ApiError::TenantSettingsNotFound(_) => "TenantSettingsNotFound",
            ApiError::RefererRejected => "RefererRejected",
            ApiError::InvalidMethod(_) => "InvalidMethod",
            ApiError::PolicyDenied(_) => "PolicyDenied",
            ApiError::PolicyTransportError(_) => "PolicyTransportError",
            ApiError::SigningFailed(_) => "SigningFailed",
        }
    }
}

} // verus!

use vstd::prelude::*;
use vstd::string::*;
use crate::error::{ApiError, ErrorView, STATUS_OK, STATUS_SEE_OTHER};
use crate::keys::{
    action_of, authz_resource, object_key, object_resource, parse_action, set_resource,
    storage_key, strings_view, Action,
};
use crate::set_id::{is_set_id, valid_set_id};
use crate::table::Table;
use crate::tenant::{opt_view, referer_allowed, AudienceEstimator, AudienceSettings};

verus! {

/// The backend that serves requests which name none.
pub const DEFAULT_BACKEND: &'static str = "default";

/// A question for the policy engine: may `subject` perform `action` on
/// `resource` within tenant `audience`?
#[derive(Debug)]
pub struct AuthzQuery {
    pub audience: String,
    pub subject: String,
    pub resource: Vec<String>,
    pub action: Action,
}

/// The content of an [`AuthzQuery`]: audience, subject, resource path, action.
pub type QueryView = (Seq<char>, Seq<char>, Seq<Seq<char>>, Action);

impl View for AuthzQuery {
    type V = QueryView;

    open spec fn view(&self) -> QueryView {
        (self.audience@, self.subject@, strings_view(self.resource@), self.action)
    }
}

/// What is left to do for a read: ask the policy engine (unless authorization
/// is bypassed), then presign a `GET` of `key` in `bucket`.
#[derive(Debug)]
pub struct ReadPlan {
    pub authz: Option<AuthzQuery>,
    pub bucket: String,
    pub key: String,
}

/// The content of a [`ReadPlan`].
pub type ReadPlanView = (Option<QueryView>, Seq<char>, Seq<char>);

impl View for ReadPlan {
    type V = ReadPlanView;

    open spec fn view(&self) -> ReadPlanView {
        (
            match self.authz {
                Some(q) => Some(q@),
                None => None,
            },
            self.bucket@,
            self.key@,
        )
    }
}

/// A request that the signer is to sign: method, bucket, storage key and
/// every header to embed.
#[derive(Debug)]
pub struct SignedRequest {
    pub method: String,
    pub bucket: String,
    pub key: String,
    pub headers: Vec<(String, String)>,
}

/// What is left to do for a sign request: build the signed request, then ask
/// the policy engine, and hand the signed URI out only on allow.
#[derive(Debug)]
pub struct SignPlan {
    pub request: SignedRequest,
    pub authz: AuthzQuery,
}

/// The body of a sign request.
#[derive(Debug)]
pub struct SignPayload {
    pub bucket: String,
    pub set: Option<String>,
    pub object: String,
    pub method: String,
    pub headers: Vec<(String, String)>,
}

/// The view of an optional owned string.
pub open spec fn opt_string_view(s: Option<String>) -> Option<Seq<char>> {
    match s {
        Some(v) => Some(v@),
        None => None,
    }
}

/// What the policy engine answered.
#[derive(Debug)]
pub enum PolicyOutcome {
    Allow,
    Deny(String),
    TransportError(String),
}

/// A successful answer.
#[derive(Debug)]
pub enum Reply {
    /// `303 See Other` to the presigned URI, with an empty body.
    Redirect(String),
    /// `200` with the signed URI as payload.
    Signed(String),
}

impl Reply {
    pub open spec fn spec_status(&self) -> u16 {
        match self {
            Reply::Redirect(_) => STATUS_SEE_OTHER,
            Reply::Signed(_) => STATUS_OK,
        }
    }

    pub fn status(&self) -> (r: u16)
        ensures
            r == self.spec_status(),
    {
        match self {
            Reply::Redirect(_) => STATUS_SEE_OTHER,
            Reply::Signed(_) => STATUS_OK,
        }
    }

    /// The URI that the reply carries.
    pub fn uri(&self) -> (r: &String)
        ensures
            *r == match self {
                Reply::Redirect(u) => u,
                Reply::Signed(u) => u,
            },
    {
        match self {
            Reply::Redirect(u) => u,
            Reply::Signed(u) => u,
        }
    }
}

/// How the referer check of a set or sign request ends.
pub enum RefererVerdict {
    /// The request passes; the bucket belongs to this audience.
    Pass(Seq<char>),
    /// The error that stops the request.
    Fail(ErrorView),
}

/// The decision on a read: the backend's client and the plan, or the error.
pub type ReadDecision<C> = Result<(C, ReadPlanView), ErrorView>;

/// The decision on a sign request: the backend's client, the signed request
/// (method, bucket, key, headers), and the policy question; or the error.
pub type SignDecision<C> = Result<
    (C, (Seq<char>, Seq<char>, Seq<char>, Seq<(String, String)>), QueryView),
    ErrorView,
>;

pub open spec fn read_result_view<C>(r: Result<(&C, ReadPlan), ApiError>) -> ReadDecision<C> {
    match r {
        Ok((c, p)) => Ok((*c, p@)),
        Err(e) => Err(e@),
    }
}

pub open spec fn sign_result_view<C>(r: Result<(&C, SignPlan), ApiError>) -> SignDecision<C> {
    match r {
        Ok((c, p)) => Ok(
            (
                *c,
                (p.request.method@, p.request.bucket@, p.request.key@, p.request.headers@),
                p.authz@,
            ),
        ),
        Err(e) => Err(e@),
    }
}

/// The immutable context shared by every request: the registered backends,
/// the audience rules, the tenants' settings and the bypass flag, which skips
/// authorization of reads.
#[derive(Debug)]
pub struct Gateway<C> {
    pub backends: Table<C>,
    pub estimator: AudienceEstimator,
    pub settings: Table<AudienceSettings>,
    pub authz_write_only: bool,
}

impl<C> Gateway<C> {
    /// The referer check of set and sign requests.
    pub open spec fn referer_verdict(&self, bucket: Seq<char>, referer: Option<Seq<char>>) -> RefererVerdict {
        match self.estimator.spec_estimate(bucket) {
            None => RefererVerdict::Fail(ErrorView::AudienceNotFound(bucket)),
            Some(aud) => match self.settings.spec_get(aud) {
                None => RefererVerdict::Fail(ErrorView::TenantSettingsNotFound(bucket)),
                Some(s) => if referer_allowed(s.allowed(), referer) {
                    RefererVerdict::Pass(aud)
                } else {
                    RefererVerdict::Fail(ErrorView::RefererRejected)
                },
            },
        }
    }

    /// The decision on a read of `object` in `bucket` through backend `back`.
    pub open spec fn object_read(
        &self,
        back: Seq<char>,
        bucket: Seq<char>,
        object: Seq<char>,
        subject: Option<Seq<char>>,
    ) -> ReadDecision<C> {
        match self.backends.spec_get(back) {
            None => Err(ErrorView::BackendNotFound(back)),
            Some(c) => if self.authz_write_only {
                Ok((c, (None, bucket, object)))
            } else if subject is None {
                Err(ErrorView::MissingSubject)
            } else {
                match self.estimator.spec_estimate(bucket) {
                    None => Err(ErrorView::AudienceForbidden(bucket)),
                    Some(aud) => Ok(
                        (
                            c,
                            (
                                Some((aud, subject->0, object_resource(bucket, object), Action::Read)),
                                bucket,
                                object,
                            ),
                        ),
                    ),
                }
            },
        }
    }

    /// The decision on a read of `object` of set `set` in `bucket` through backend `back`.
    pub open spec fn set_read(
        &self,
        back: Seq<char>,
        bucket: Seq<char>,
        set: Seq<char>,
        object: Seq<char>,
        subject: Option<Seq<char>>,
        referer: Option<Seq<char>>,
    ) -> ReadDecision<C> {
        match self.backends.spec_get(back) {
            None => Err(ErrorView::BackendNotFound(back)),
            Some(c) => if !is_set_id(set) {
                Err(ErrorView::InvalidSetId)
            } else {
                match self.referer_verdict(bucket, referer) {
                    RefererVerdict::Fail(e) => Err(e),
                    RefererVerdict::Pass(aud) => if self.authz_write_only {
                        Ok((c, (None, bucket, storage_key(Some(set), object))))
                    } else if subject is None {
                        Err(ErrorView::MissingSubject)
                    } else {
                        Ok(
                            (
                                c,
                                (
                                    Some((aud, subject->0, set_resource(bucket, set), Action::Read)),
                                    bucket,
                                    storage_key(Some(set), object),
                                ),
                            ),
                        )
                    },
                }
            },
        }
    }

    /// The decision on a sign request through backend `back`.
    pub open spec fn sign_request(
        &self,
        back: Seq<char>,
        payload: SignPayload,
        subject: Seq<char>,
        referer: Option<Seq<char>>,
    ) -> SignDecision<C> {
        let set = opt_string_view(payload.set);
        match self.backends.spec_get(back) {
            None => Err(ErrorView::BackendNotFound(back)),
            Some(c) => if set is Some && !is_set_id(set->0) {
                Err(ErrorView::InvalidSetId)
            } else {
                match self.referer_verdict(payload.bucket@, referer) {
                    RefererVerdict::Fail(e) => Err(e),
                    RefererVerdict::Pass(aud) => match action_of(payload.method@) {
                        None => Err(ErrorView::InvalidMethod(payload.method@)),
                        Some(action) => Ok(
                            (
                                c,
                                (
                                    payload.method@,
                                    payload.bucket@,
                                    storage_key(set, payload.object@),
                                    payload.headers@,
                                ),
                                (
                                    aud,
                                    subject,
                                    match set {
                                        Some(s) => set_resource(payload.bucket@, s),
                                        None => object_resource(payload.bucket@, payload.object@),
                                    },
                                    action,
                                ),
                            ),
                        ),
                    },
                }
            },
        }
    }

    pub fn new(
        backends: Table<C>,
        estimator: AudienceEstimator,
        settings: Table<AudienceSettings>,
        authz_write_only: bool,
    ) -> (r: Self)
        ensures
            r.backends == backends,
            r.estimator == estimator,
            r.settings == settings,
            r.authz_write_only == authz_write_only,
    {
        Gateway { backends, estimator, settings, authz_write_only }
    }

    /// The client of backend `back`.
    pub fn resolve_backend(&self, back: &str) -> (r: Result<&C, ApiError>)
        ensures
            match self.backends.spec_get(back@) {
                Some(c) => r is Ok && *r->Ok_0 == c,
                None => r is Err && r->Err_0@ == ErrorView::BackendNotFound(back@),
            },
    {
        match self.backends.get(back) {
            Some(c) => Ok(c),
            None => Err(ApiError::BackendNotFound(String::from_str(back))),
        }
    }

    /// Checks the referer against the settings of the bucket's tenant, and
    /// gives the tenant (audience) when it passes.
    pub fn check_referer(&self, bucket: &str, referer: Option<&str>) -> (r: Result<String, ApiError>)
        ensures
            match self.referer_verdict(bucket@, opt_view(referer)) {
                RefererVerdict::Pass(aud) => r is Ok && r->Ok_0@ == aud,
                RefererVerdict::Fail(e) => r is Err && r->Err_0@ == e,
            },
    {
        let aud = match self.estimator.estimate(bucket) {
            Some(a) => a,
            None => return Err(ApiError::AudienceNotFound(String::from_str(bucket))),
        };
        match self.settings.get(aud.as_str()) {
            None => Err(ApiError::TenantSettingsNotFound(String::from_str(bucket))),
            Some(s) => if s.valid_referer(referer) {
                Ok(aud)
            } else {
                Err(ApiError::RefererRejected)
            },
        }
    }

    /// Decides a read of `object` in `bucket` through backend `back`.
    pub fn plan_object_read(
        &self,
        back: &str,
        bucket: &str,
        object: &str,
        subject: Option<&str>,
    ) -> (r: Result<(&C, ReadPlan), ApiError>)
        ensures
            read_result_view(r) == self.object_read(back@, bucket@, object@, opt_view(subject)),
    {
        let client = match self.resolve_backend(back) {
            Ok(c) => c,
            Err(e) => return Err(e),
        };
        if self.authz_write_only {
            return Ok(
                (client, ReadPlan { authz: None, bucket: String::from_str(bucket), key: String::from_str(object) }),
            );
        }
        let sub = match subject {
            Some(s) => s,
            None => return Err(ApiError::MissingSubject),
        };
        let audience = match self.estimator.estimate(bucket) {
            Some(a) => a,
            None => return Err(ApiError::AudienceForbidden(String::from_str(bucket))),
        };
        let query = AuthzQuery {
            audience,
            subject: String::from_str(sub),
            resource: authz_resource(bucket, None, object),
            action: Action::Read,
        };
        Ok(
            (
                client,
                ReadPlan {
                    authz: Some(query),
                    bucket: String::from_str(bucket),
                    key: String::from_str(object),
                },
            ),
        )
    }

    /// Decides a read of `object` of set `set` in `bucket` through backend `back`.
    pub fn plan_set_read(
        &self,
        back: &str,
        bucket: &str,
        set: &str,
        object: &str,
        subject: Option<&str>,
        referer: Option<&str>,
    ) -> (r: Result<(&C, ReadPlan), ApiError>)
        ensures
            read_result_view(r) == self.set_read(
                back@,
                bucket@,
                set@,
                object@,
                opt_view(subject),
                opt_view(referer),
            ),
    {
        let client = match self.resolve_backend(back) {
            Ok(c) => c,
            Err(e) => return Err(e),
        };
        if !valid_set_id(set) {
            return Err(ApiError::InvalidSetId);
        }
        let audience = match self.check_referer(bucket, referer) {
            Ok(a) => a,
            Err(e) => return Err(e),
        };
        let key = object_key(Some(set), object);
        if self.authz_write_only {
            return Ok((client, ReadPlan { authz: None, bucket: String::from_str(bucket), key }));
        }
        let sub = match subject {
            Some(s) => s,
            None => return Err(ApiError::MissingSubject),
        };
        let query = AuthzQuery {
            audience,
            subject: String::from_str(sub),
            resource: authz_resource(bucket, Some(set), object),
            action: Action::Read,
        };
        Ok((client, ReadPlan { authz: Some(query), bucket: String::from_str(bucket), key }))
    }

    /// Decides a sign request through backend `back`. No bypass applies here:
    /// the policy engine is always asked.
    pub fn plan_sign(
        &self,
        back: &str,
        payload: SignPayload,
        subject: &str,
        referer: Option<&str>,
    ) -> (r: Result<(&C, SignPlan), ApiError>)
        ensures
            sign_result_view(r) == self.sign_request(back@, payload, subject@, opt_view(referer)),
    {
        let client = match self.resolve_backend(back) {
            Ok(c) => c,
            Err(e) => return Err(e),
        };
        let set: Option<&str> = match &payload.set {
            Some(s) => Some(s.as_str()),
            None => None,
        };
        if let Some(s) = set {
            if !valid_set_id(s) {
                return Err(ApiError::InvalidSetId);
            }
        }
        let audience = match self.check_referer(payload.bucket.as_str(), referer) {
            Ok(a) => a,
            Err(e) => return Err(e),
        };
        let key = object_key(set, payload.object.as_str());
        let resource = authz_resource(payload.bucket.as_str(), set, payload.object.as_str());
        let action = match parse_action(payload.method.as_str()) {
            Ok(a) => a,
            Err(e) => return Err(e),
        };
        let query = AuthzQuery { audience, subject: String::from_str(subject), resource, action };
        let request = SignedRequest {
            method: payload.method,
            bucket: payload.bucket,
            key,
            headers: payload.headers,
        };
        Ok((client, SignPlan { request, authz: query }))
    }
}

/// Turns the policy engine's answer into the go-ahead, or the error that ends the request.
pub fn authorization_result(outcome: PolicyOutcome) -> (r: Result<(), ApiError>)
    ensures
        match outcome {
            PolicyOutcome::Allow => r is Ok,
            PolicyOutcome::Deny(reason) => r is Err && r->Err_0@ == ErrorView::PolicyDenied(reason@),
            PolicyOutcome::TransportError(e) => r is Err && r->Err_0@
                == ErrorView::PolicyTransportError(e@),
        },
{
    match outcome {
        PolicyOutcome::Allow => Ok(()),
        PolicyOutcome::Deny(reason) => Err(ApiError::PolicyDenied(reason)),
        PolicyOutcome::TransportError(e) => Err(ApiError::PolicyTransportError(e)),
    }
}

/// The answer to an authorized read, once the signer has presigned the `GET`:
/// a redirect to the presigned URI, or the signer's failure.
pub fn redirect(presigned: Result<String, String>) -> (r: Result<Reply, ApiError>)
    ensures
        match presigned {
            Ok(uri) => r is Ok && r->Ok_0 == Reply::Redirect(uri),
            Err(e) => r is Err && r->Err_0@ == ErrorView::SigningFailed(e@),
        },
{
    match presigned {
        Ok(uri) => Ok(Reply::Redirect(uri)),
        Err(e) => Err(ApiError::SigningFailed(e)),
    }
}

/// What the signer made of a sign request: the signed URI, or its failure,
/// which ends the request before the policy engine is asked.
pub fn signed_uri(signed: Result<String, String>) -> (r: Result<String, ApiError>)
    ensures
        match signed {
            Ok(uri) => r is Ok && r->Ok_0 == uri,
            Err(e) => r is Err && r->Err_0@ == ErrorView::SigningFailed(e@),
        },
{
    match signed {
        Ok(uri) => Ok(uri),
        Err(e) => Err(ApiError::SigningFailed(e)),
    }
}

/// The answer to a sign request whose URI was built: the URI on allow; on any
/// other answer an error that carries the policy engine's words and not the URI.
pub fn sign_reply(uri: String, outcome: PolicyOutcome) -> (r: Result<Reply, ApiError>)
    ensures
        match outcome {
            PolicyOutcome::Allow => r is Ok && r->Ok_0 == Reply::Signed(uri),
            PolicyOutcome::Deny(reason) => r is Err && r->Err_0@ == ErrorView::PolicyDenied(reason@),
            PolicyOutcome::TransportError(e) => r is Err && r->Err_0@
                == ErrorView::PolicyTransportError(e@),
        },
{
    match authorization_result(outcome) {
        Ok(()) => Ok(Reply::Signed(uri)),
        Err(e) => Err(e),
    }
}

} // verus!

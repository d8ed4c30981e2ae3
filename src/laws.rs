use vstd::prelude::*;
use crate::error::{ErrorView, STATUS_FORBIDDEN, STATUS_NOT_FOUND};
use crate::gateway::{Gateway, SignPayload};
use crate::set_id::is_set_id;

verus! {

/// A request that names an unregistered backend is answered with `404`, whatever
/// else it holds: the backend is resolved before any other check runs.
pub proof fn unknown_backend_is_refused_first<C>(
    g: Gateway<C>,
    back: Seq<char>,
    bucket: Seq<char>,
    set: Seq<char>,
    object: Seq<char>,
    subject: Option<Seq<char>>,
    referer: Option<Seq<char>>,
    payload: SignPayload,
    signer: Seq<char>,
)
    requires
        g.backends.spec_get(back) is None,
    ensures
        g.object_read(back, bucket, object, subject) is Err,
        g.object_read(back, bucket, object, subject)->Err_0 == ErrorView::BackendNotFound(back),
        g.set_read(back, bucket, set, object, subject, referer) is Err,
        g.set_read(back, bucket, set, object, subject, referer)->Err_0 == ErrorView::BackendNotFound(
            back,
        ),
        g.sign_request(back, payload, signer, referer) is Err,
        g.sign_request(back, payload, signer, referer)->Err_0 == ErrorView::BackendNotFound(back),
        ErrorView::BackendNotFound(back).status() == STATUS_NOT_FOUND,
{
}

/// With the bypass flag set, a read without a subject succeeds and its plan
/// holds no question for the policy engine; for a set read this holds once
/// the set id and the referer have passed.
pub proof fn bypass_reads_skip_policy<C>(
    g: Gateway<C>,
    back: Seq<char>,
    bucket: Seq<char>,
    set: Seq<char>,
    object: Seq<char>,
    referer: Option<Seq<char>>,
)
    requires
        g.authz_write_only,
        g.backends.spec_get(back) is Some,
    ensures
        g.object_read(back, bucket, object, None) is Ok,
        g.object_read(back, bucket, object, None)->Ok_0.1.0 is None,
        is_set_id(set) && g.referer_verdict(bucket, referer) is Pass ==> {
            &&& g.set_read(back, bucket, set, object, None, referer) is Ok
            &&& g.set_read(back, bucket, set, object, None, referer)->Ok_0.1.0 is None
        },
{
}

/// Without the bypass flag, a read without a subject never yields a plan, so
/// the policy engine is never asked; it is answered with `403`, and with
/// "missing subject" once the set id and the referer have passed.
pub proof fn reads_without_subject_are_refused<C>(
    g: Gateway<C>,
    back: Seq<char>,
    bucket: Seq<char>,
    set: Seq<char>,
    object: Seq<char>,
    referer: Option<Seq<char>>,
)
    requires
        !g.authz_write_only,
        g.backends.spec_get(back) is Some,
    ensures
        g.object_read(back, bucket, object, None) is Err,
        g.object_read(back, bucket, object, None)->Err_0 == ErrorView::MissingSubject,
        ErrorView::MissingSubject.status() == STATUS_FORBIDDEN,
        g.set_read(back, bucket, set, object, None, referer) is Err,
        is_set_id(set) && g.referer_verdict(bucket, referer) is Pass ==> g.set_read(
            back,
            bucket,
            set,
            object,
            None,
            referer,
        )->Err_0 == ErrorView::MissingSubject,
{
}

} // verus!

//! What the download takes from the S3 SDK: the first response, and the failures of later ones.

use crate::error::{IoError, IoErrorView};
use crate::model::ReaderView;
use crate::reader::{ResumableS3Read, StreamResumeConfig};
use crate::request::{make_s3_reconnect, text, S3Reconnect, S3ReconnectView};
use aws_sdk_s3::error::SdkError;
use aws_sdk_s3::operation::get_object::{GetObjectError, GetObjectOutput};
use aws_smithy_runtime_api::client::orchestrator::HttpResponse;
use aws_smithy_runtime_api::client::result::ServiceError;
use std::io;
use vstd::prelude::*;
use vstd::string::StringExecFns;

verus! {

/// `GetObjectOutput` of the S3 SDK, read through its accessors only.
#[verifier::external_type_specification]
#[verifier::external_body]
pub struct ExGetObjectOutput(aws_sdk_s3::operation::get_object::GetObjectOutput);

/// `GetObjectError` of the S3 SDK, carried without a look inside.
#[verifier::external_type_specification]
#[verifier::external_body]
pub struct ExGetObjectError(aws_sdk_s3::operation::get_object::GetObjectError);

/// `SdkBody` of the S3 SDK, carried without a look inside.
#[verifier::external_type_specification]
#[verifier::external_body]
pub struct ExSdkBody(aws_sdk_s3::primitives::SdkBody);

/// `Response` of the SDK runtime, carried without a look inside.
#[verifier::external_type_specification]
#[verifier::external_body]
#[verifier::reject_recursive_types(B)]
pub struct ExResponse<B>(aws_smithy_runtime_api::http::Response<B>);

/// `ConstructionFailure` of the SDK runtime, carried without a look inside.
#[verifier::external_type_specification]
#[verifier::external_body]
pub struct ExConstructionFailure(aws_smithy_runtime_api::client::result::ConstructionFailure);

/// `TimeoutError` of the SDK runtime, carried without a look inside.
#[verifier::external_type_specification]
#[verifier::external_body]
pub struct ExTimeoutError(aws_smithy_runtime_api::client::result::TimeoutError);

/// `DispatchFailure` of the SDK runtime, carried without a look inside.
#[verifier::external_type_specification]
#[verifier::external_body]
pub struct ExDispatchFailure(aws_smithy_runtime_api::client::result::DispatchFailure);

/// `ResponseError` of the SDK runtime, carried without a look inside.
#[verifier::external_type_specification]
#[verifier::external_body]
#[verifier::reject_recursive_types(R)]
pub struct ExResponseError<R>(aws_smithy_runtime_api::client::result::ResponseError<R>);

/// `ServiceError` of the SDK runtime, read through its accessor only.
#[verifier::external_type_specification]
#[verifier::external_body]
#[verifier::reject_recursive_types(E)]
#[verifier::reject_recursive_types(R)]
pub struct ExServiceError<E, R>(aws_smithy_runtime_api::client::result::ServiceError<E, R>);

/// `SdkError` of the SDK runtime, with the variants that it declares.
#[verifier::external_type_specification]
#[verifier::reject_recursive_types(E)]
#[verifier::reject_recursive_types(R)]
pub struct ExSdkError<E, R>(aws_smithy_runtime_api::client::result::SdkError<E, R>);

/// The HTTP status of the response in which the service reported an error.
pub uninterp spec fn response_status(svc: ServiceError<GetObjectError, HttpResponse>) -> u16;

/// `ServiceError::raw`, `Response::status` and `StatusCode::as_u16`: three accessors that each
/// return a stored field, here the status of the response, as a number.
#[verifier::external_body]
fn raw_status(svc: &ServiceError<GetObjectError, HttpResponse>) -> (status: u16)
    ensures
        status == response_status(*svc),
{
    svc.raw().status().as_u16()
}

/// The text of an SDK error, which says only what sort of error it is.
pub open spec fn sdk_error_text(err: SdkError<GetObjectError>) -> Seq<char> {
    if err is ConstructionFailure {
        "failed to construct request"@
    } else if err is TimeoutError {
        "request has timed out"@
    } else if err is DispatchFailure {
        "dispatch failure"@
    } else if err is ResponseError {
        "response error"@
    } else {
        "service error"@
    }
}

/// `Display` of `SdkError`, through `to_string`: it writes one fixed text per variant.
#[verifier::external_body]
fn sdk_error_to_string(err: &SdkError<GetObjectError>) -> (s: String)
    ensures
        s@ == sdk_error_text(*err),
{
    err.to_string()
}

/// The entity tag in the first response.
pub uninterp spec fn response_e_tag(first: GetObjectOutput) -> Option<Seq<char>>;

/// `GetObjectOutput::e_tag` returns the entity tag that the response holds, if it holds one.
pub assume_specification[ GetObjectOutput::e_tag ](first: &GetObjectOutput) -> (e_tag: Option<&str>)
    ensures
        (match e_tag {
            Some(t) => Some(t@),
            None => None,
        }) == response_e_tag(*first),
;

/// The content length in the first response.
pub uninterp spec fn response_content_length(first: GetObjectOutput) -> Option<i64>;

/// `GetObjectOutput::content_length` returns the length that the response holds, if it holds one.
pub assume_specification[ GetObjectOutput::content_length ](first: &GetObjectOutput) -> (length:
    Option<i64>)
    ensures
        length == response_content_length(*first),
;

/// The size of an object whose response gave `content_length`: a negative length is none.
pub open spec fn size_of_object(content_length: Option<i64>) -> Option<u64> {
    match content_length {
        Some(n) => if n >= 0 {
            Some(n as u64)
        } else {
            None
        },
        None => None,
    }
}

impl ResumableS3Read {
    /// The reader of a download whose first response was `first`, and how to reopen it.
    pub fn from_first_response(
        bucket: String,
        key: String,
        first: &GetObjectOutput,
        config: StreamResumeConfig,
    ) -> (r: (ResumableS3Read, S3Reconnect))
        ensures
            r.0@ == ReaderView::fresh(
                key@,
                size_of_object(response_content_length(*first)),
                config.max_retries as nat,
                config.initial_backoff_ms as nat,
                config.max_backoff_ms as nat,
            ),
            r.1@ == (S3ReconnectView {
                bucket: bucket@,
                key: key@,
                etag: response_e_tag(*first),
            }),
            response_content_length(*first) matches Some(n) ==> n >= 0 ==> (r.0@.total_size matches Some(total) && total
                == n),
            response_content_length(*first) matches Some(n) ==> n < 0 ==> r.0@.total_size is None,
            response_content_length(*first) is None ==> r.0@.total_size is None,
            r.0@.key == key@,
            r.0@.bytes_read == 0,
            r.0@.retries_remaining == config.max_retries,
            r.0@.next_backoff_ms == config.initial_backoff_ms,
            r.0@.max_backoff_ms == config.max_backoff_ms,
            r.0@.phase is Reading,
            r.1.bucket@ == bucket@,
            r.1.key@ == key@,
            r.1.etag is Some <==> response_e_tag(*first) is Some,
            r.1.etag matches Some(t) ==> t@ == response_e_tag(*first)->Some_0,
    {
        let etag = match first.e_tag() {
            Some(t) => Some(t.to_owned()),
            None => None,
        };
        Self::from_response_parts(bucket, key, etag, first.content_length(), config)
    }

    /// The reader of a download whose first response held the given entity tag and content
    /// length, and how to reopen it.
    pub fn from_response_parts(
        bucket: String,
        key: String,
        etag: Option<String>,
        content_length: Option<i64>,
        config: StreamResumeConfig,
    ) -> (r: (ResumableS3Read, S3Reconnect))
        ensures
            r.0@ == ReaderView::fresh(
                key@,
                size_of_object(content_length),
                config.max_retries as nat,
                config.initial_backoff_ms as nat,
                config.max_backoff_ms as nat,
            ),
            r.1@ == (S3ReconnectView { bucket: bucket@, key: key@, etag: text(etag) }),
            content_length matches Some(n) ==> n >= 0 ==> (r.0@.total_size matches Some(total) && total
                == n),
            content_length matches Some(n) ==> n < 0 ==> r.0@.total_size is None,
            content_length is None ==> r.0@.total_size is None,
            r.0@.key == key@,
            r.0@.bytes_read == 0,
            r.0@.retries_remaining == config.max_retries,
            r.0@.next_backoff_ms == config.initial_backoff_ms,
            r.0@.max_backoff_ms == config.max_backoff_ms,
            r.0@.phase is Reading,
            r.1.bucket@ == bucket@,
            r.1.key@ == key@,
            r.1.etag is Some <==> etag is Some,
            r.1.etag matches Some(t) ==> t@ == etag->Some_0@,
    {
        let total_size: Option<u64> = match content_length {
            Some(n) => if n >= 0 {
                Some(n as u64)
            } else {
                None
            },
            None => None,
        };
        let reconnect = make_s3_reconnect(bucket, key.clone(), etag);
        (Self::from_parts(key, total_size, config), reconnect)
    }
}

/// The HTTP status that the service answered with, if it was the service that reported the error.
pub open spec fn service_status(err: SdkError<GetObjectError>) -> Option<u16> {
    match err {
        SdkError::ServiceError(svc) => Some(response_status(svc)),
        _ => None,
    }
}

/// The service refused the request because the object is no longer the one it was.
pub open spec fn object_replaced(status: Option<u16>) -> bool {
    status == Some(412u16)
}

/// The service refused the request, and would refuse it again: any client error but a timeout
/// and a request to slow down.
pub open spec fn request_refused(status: Option<u16>) -> bool {
    status matches Some(s) && 400 <= s < 500 && s != 408 && s != 429
}

/// The error that stands for a failed reconnect, from the HTTP status and the text of the failure.
pub open spec fn reconnect_error(status: Option<u16>, text: Seq<char>) -> IoErrorView {
    if object_replaced(status) {
        IoErrorView {
            kind: io::ErrorKind::InvalidData,
            message: "S3 If-Match precondition failed (object changed): "@ + text,
        }
    } else if request_refused(status) {
        IoErrorView {
            kind: io::ErrorKind::PermissionDenied,
            message: "S3 fatal error during resume: "@ + text,
        }
    } else {
        IoErrorView {
            kind: io::ErrorKind::Other,
            message: "S3 transient error during resume: "@ + text,
        }
    }
}

/// Makes the error that stands for a failed reconnect, with a kind that settles whether it is
/// tried again.
pub fn reconnect_error_of(status: Option<u16>, text: &str) -> (e: IoError)
    ensures
        e@ == reconnect_error(status, text@),
        e.kind is InvalidData <==> (status matches Some(code) && code == 412),
        e.kind is PermissionDenied <==> (status matches Some(code) && 400 <= code < 500 && code != 408 && code != 412
            && code != 429),
        e.kind is Other <==> (status matches Some(code) ==> code < 400 || code >= 500 || code == 408 || code == 429),
        e.kind is InvalidData ==> e.message@
            == "S3 If-Match precondition failed (object changed): "@ + text@,
        e.kind is PermissionDenied ==> e.message@ == "S3 fatal error during resume: "@ + text@,
        e.kind is Other ==> e.message@ == "S3 transient error during resume: "@ + text@,
{
    if let Some(status) = status {
        if status == 412 {
            return IoError {
                kind: io::ErrorKind::InvalidData,
                message: "S3 If-Match precondition failed (object changed): ".to_owned().concat(
                    text,
                ),
            };
        }
        if 400 <= status && status < 500 && status != 408 && status != 429 {
            return IoError {
                kind: io::ErrorKind::PermissionDenied,
                message: "S3 fatal error during resume: ".to_owned().concat(text),
            };
        }
    }
    IoError {
        kind: io::ErrorKind::Other,
        message: "S3 transient error during resume: ".to_owned().concat(text),
    }
}

/// Makes an I/O error of the failure of a reconnect.
///
/// A failed `If-Match` guard becomes `InvalidData`: the object has been replaced, and resuming
/// would splice the bytes of two objects. Any other client error but a timeout and a request to
/// slow down becomes `PermissionDenied`. Neither is retried. Everything else becomes `Other`,
/// which is.
pub fn sdk_err_to_io(err: SdkError<GetObjectError>) -> (e: IoError)
    ensures
        e@ == reconnect_error(service_status(err), sdk_error_text(err)),
        e.kind is InvalidData <==> (err matches SdkError::ServiceError(svc) && response_status(svc)
            == 412),
        e.kind is PermissionDenied <==> (err matches SdkError::ServiceError(svc) && 400
            <= response_status(svc) < 500 && response_status(svc) != 408 && response_status(svc)
            != 412 && response_status(svc) != 429),
        e.kind is Other <==> (err matches SdkError::ServiceError(svc) ==> response_status(svc) < 400
            || response_status(svc) >= 500 || response_status(svc) == 408 || response_status(svc)
            == 429),
        e.kind is InvalidData ==> e.message@
            == "S3 If-Match precondition failed (object changed): "@ + sdk_error_text(err),
        e.kind is PermissionDenied ==> e.message@ == "S3 fatal error during resume: "@
            + sdk_error_text(err),
        e.kind is Other ==> e.message@ == "S3 transient error during resume: "@ + sdk_error_text(
            err,
        ),
{
    let text = sdk_error_to_string(&err);
    let status = match &err {
        SdkError::ServiceError(svc) => Some(raw_status(svc)),
        _ => None,
    };
    reconnect_error_of(status, text.as_str())
}

} // verus!

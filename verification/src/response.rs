//! What the answer of an HTTP server means for a download.

use reqwest::StatusCode;
use vstd::prelude::*;

use crate::duration::{download_timeout, gives_limit, Duration};
use crate::error::{reduced_message, CacheEntry, CacheError, CacheErrorView, ErrorChain};
use crate::headers::{announced_length, content_length};

verus! {

/// The status of a response to a request that lacks credentials.
pub const UNAUTHORIZED: u16 = 401;

/// The status of a response to a request whose credentials are not sufficient.
pub const FORBIDDEN: u16 = 403;

/// Whether a number can be the status of a response.
pub open spec fn is_status(status: u16) -> bool {
    100 <= status <= 999
}

/// The text that reqwest displays for a status: the number and the phrase that goes with it.
pub uninterp spec fn status_text(status: u16) -> Seq<char>;

/// Calls `StatusCode::is_success` of reqwest: whether the status is within 200-299.
#[verifier::external_body]
fn is_success(status: u16) -> (success: bool)
    requires
        is_status(status),
    ensures
        success == (200 <= status <= 299),
{
    StatusCode::from_u16(status).unwrap().is_success()
}

/// Calls `StatusCode::is_client_error` of reqwest: whether the status is within 400-499.
#[verifier::external_body]
fn is_client_error(status: u16) -> (client_error: bool)
    requires
        is_status(status),
    ensures
        client_error == (400 <= status <= 499),
{
    StatusCode::from_u16(status).unwrap().is_client_error()
}

/// Displays a `StatusCode` of reqwest as text. The text is a function of the status alone, which
/// [`status_text`] names.
#[verifier::external_body]
fn status_to_string(status: u16) -> (text: String)
    requires
        is_status(status),
    ensures
        text@ == status_text(status),
{
    StatusCode::from_u16(status).unwrap().to_string()
}

/// Why a response with the given status is no file, if it is none. `text` is what the status is
/// displayed as.
pub open spec fn status_error(status: u16, text: Seq<char>) -> Option<CacheErrorView> {
    if 200 <= status <= 299 {
        None
    } else if status == FORBIDDEN || status == UNAUTHORIZED {
        Some(CacheErrorView::PermissionDenied(text))
    } else if 400 <= status <= 499 {
        Some(CacheErrorView::NotFound)
    } else {
        Some(CacheErrorView::DownloadError(text))
    }
}

/// Tells whether a response with the given status carries the file, and why not if it does not.
///
/// `details` is the text that is displayed for the status.
pub fn check_status(status: u16, details: String) -> (checked: CacheEntry<()>)
    requires
        is_status(status),
    ensures
        match checked {
            Ok(_) => status_error(status, details@) is None,
            Err(error) => status_error(status, details@) == Some(error@),
        },
{
    if is_success(status) {
        Ok(())
    } else if status == FORBIDDEN || status == UNAUTHORIZED {
        Err(CacheError::PermissionDenied(details))
    } else if is_client_error(status) {
        // If it's a client error, chances are it's a 404.
        Err(CacheError::NotFound)
    } else {
        Err(CacheError::DownloadError(details))
    }
}

/// A response of which the body has not been read.
///
/// `B` is the type of the body.
#[derive(Clone, Debug)]
pub struct Response<B> {
    /// The status of the response.
    pub status: u16,
    /// The value of its first `Content-Length` header.
    pub content_length: Option<Vec<u8>>,
    /// The body that is yet to be read.
    pub body: B,
}

impl<B> Response<B> {
    /// The number of bytes that the response announces for its body.
    pub open spec fn length(&self) -> Option<i64> {
        announced_length(
            match self.content_length {
                Some(value) => Some(value@),
                None => None,
            },
        )
    }
}

/// Why a request brought no file, if it brought none. `limit` is the time it was given.
///
/// The request was not answered in time, failed, or was answered.
pub open spec fn request_error<B, E>(
    sent: Result<Result<Response<B>, ErrorChain>, E>,
    limit: Duration,
) -> Option<CacheErrorView> {
    match sent {
        Err(_) => Some(CacheErrorView::Timeout(limit)),
        Ok(Err(error)) => Some(CacheErrorView::DownloadError(reduced_message(error.root()))),
        Ok(Ok(response)) => status_error(response.status, status_text(response.status)),
    }
}

/// A body that is to be read.
#[derive(Clone, Debug)]
pub struct Accepted<B> {
    /// The body.
    pub body: B,
    /// How long reading it may take, if its length was announced.
    pub limit: Option<Duration>,
}

/// Decides what to do after a request has been sent.
///
/// `sent` is an error if no answer came within `connect_timeout`. Otherwise it is the error that
/// the request failed with, or the response. The result is the body of the response, if it is to
/// be read, and the time that this may take: `streaming_timeout` for each gigabyte, which `scale`
/// multiplies by the gigabytes in a number of bytes.
pub fn download_reqwest<B, E, K>(
    sent: Result<Result<Response<B>, ErrorChain>, E>,
    connect_timeout: Duration,
    streaming_timeout: Duration,
    scale: K,
) -> (accepted: CacheEntry<Accepted<B>>) where K: Fn(Duration, i64) -> Duration
    requires
        sent matches Ok(Ok(response)) ==> {
            &&& is_status(response.status)
            &&& response.length() matches Some(length) ==> length >= 0 ==> call_requires(
                scale,
                (streaming_timeout, length),
            )
        },
    ensures
        match accepted {
            Ok(accepted) => {
                &&& request_error(sent, connect_timeout) is None
                &&& sent matches Ok(Ok(response))
                &&& accepted.body == response.body
                &&& gives_limit(scale, response.length(), streaming_timeout, accepted.limit)
            },
            Err(error) => request_error(sent, connect_timeout) == Some(error@),
        },
{
    match sent {
        Err(_) => Err(CacheError::Timeout(connect_timeout)),
        Ok(Err(error)) => Err(CacheError::download_error(&error)),
        Ok(Ok(response)) => {
            let details = status_to_string(response.status);
            match check_status(response.status, details) {
                Ok(()) => {
                    let length = content_length(&response.content_length);
                    let limit = download_timeout(length, streaming_timeout, scale);
                    Ok(Accepted { body: response.body, limit })
                },
                Err(error) => Err(error),
            }
        },
    }
}

/// The body of a response is read exactly if the response came in time and reports success.
pub proof fn law_only_successful_responses_are_read<B, E>(
    sent: Result<Result<Response<B>, ErrorChain>, E>,
    limit: Duration,
)
    ensures
        request_error(sent, limit) is None <==> (sent matches Ok(Ok(response)) && 200
            <= response.status <= 299),
{
}

/// Lack of permission is told apart from all other answers: it is reported for exactly two
/// statuses, and a missing file is reported for all other client errors.
pub proof fn law_client_errors_are_missing_or_forbidden(status: u16, text: Seq<char>)
    ensures
        status_error(status, text) == Some(CacheErrorView::PermissionDenied(text)) <==> status
            == UNAUTHORIZED || status == FORBIDDEN,
        status_error(status, text) == Some(CacheErrorView::NotFound) <==> 400 <= status <= 499
            && status != UNAUTHORIZED && status != FORBIDDEN,
{
}

/// An answer is judged by the class of its status alone: success is accepted, refused access and
/// other client errors are told apart, and all else is a failed download.
pub proof fn law_statuses_decide(status: u16, details: String, checked: CacheEntry<()>)
    requires
        call_ensures(check_status, (status, details), checked),
    ensures
        checked is Ok <==> 200 <= status <= 299,
        checked matches Err(CacheError::PermissionDenied(_)) <==> status == 401 || status == 403,
        checked matches Err(CacheError::NotFound) <==> 400 <= status <= 499 && status != 401
            && status != 403,
        checked matches Err(CacheError::DownloadError(_)) <==> !(200 <= status <= 299) && !(400
            <= status <= 499),
        checked matches Err(CacheError::PermissionDenied(text)) ==> text@ == details@,
        checked matches Err(CacheError::DownloadError(text)) ==> text@ == details@,
{
}

/// What a request that was answered ends with follows from the status of the answer, whatever else
/// the answer holds: success is read, refused access and all other failures are reported with the
/// status, and only a client error means that there is no file.
pub proof fn law_answers_are_judged_by_their_status<B, E, K>(
    response: Response<B>,
    connect_timeout: Duration,
    streaming_timeout: Duration,
    scale: K,
    accepted: CacheEntry<Accepted<B>>,
) where K: Fn(Duration, i64) -> Duration
    requires
        call_ensures(
            download_reqwest::<B, E, K>,
            (Ok(Ok(response)), connect_timeout, streaming_timeout, scale),
            accepted,
        ),
    ensures
        accepted is Ok <==> 200 <= response.status <= 299,
        accepted matches Err(CacheError::PermissionDenied(_)) <==> response.status == 401
            || response.status == 403,
        accepted matches Err(CacheError::NotFound) <==> 400 <= response.status <= 499
            && response.status != 401 && response.status != 403,
        accepted matches Err(CacheError::DownloadError(_)) <==> !(200 <= response.status <= 299)
            && !(400 <= response.status <= 499),
        accepted matches Err(CacheError::PermissionDenied(text)) ==> text@ == status_text(
            response.status,
        ),
        accepted matches Err(CacheError::DownloadError(text)) ==> text@ == status_text(
            response.status,
        ),
        accepted matches Ok(accepted) ==> accepted.body == response.body,
{
}

/// The error of a request that was answered is a missing file exactly for the client errors other
/// than 401 and 403, refused access exactly for those two, and a failed download for every status
/// that is neither success nor client error.
pub proof fn law_answered_requests_fail_by_class<B, E>(response: Response<B>, limit: Duration)
    ensures
        ({
            let status = response.status;
            let error = request_error::<B, E>(Ok(Ok(response)), limit);
            &&& error == Some(CacheErrorView::NotFound) <==> 400 <= status <= 499 && status != 401
                && status != 403
            &&& error == Some(CacheErrorView::PermissionDenied(status_text(status))) <==> status
                == 401 || status == 403
            &&& error == Some(CacheErrorView::DownloadError(status_text(status))) <==> !(200
                <= status <= 299) && !(400 <= status <= 499)
            &&& error is None <==> 200 <= status <= 299
        }),
{
}

/// Two answers with the same status are judged alike, whatever they announce and carry and however
/// long anything may take.
pub proof fn law_equal_statuses_are_judged_alike<B, E, K>(
    first: Response<B>,
    second: Response<B>,
    timeouts: (Duration, Duration),
    other_timeouts: (Duration, Duration),
    scale: K,
    one: CacheEntry<Accepted<B>>,
    other: CacheEntry<Accepted<B>>,
) where K: Fn(Duration, i64) -> Duration
    requires
        first.status == second.status,
        call_ensures(
            download_reqwest::<B, E, K>,
            (Ok(Ok(first)), timeouts.0, timeouts.1, scale),
            one,
        ),
        call_ensures(
            download_reqwest::<B, E, K>,
            (Ok(Ok(second)), other_timeouts.0, other_timeouts.1, scale),
            other,
        ),
    ensures
        one is Ok <==> other is Ok,
        one matches Err(error) ==> other matches Err(same) && error@ == same@,
{
}

/// An answer that is no success is worth another attempt exactly if it is no client error. In
/// particular a server that is unavailable for a while is asked again.
pub proof fn law_server_failures_are_retried<B, E, K>(
    response: Response<B>,
    connect_timeout: Duration,
    streaming_timeout: Duration,
    scale: K,
    error: CacheError,
    tries: u32,
    step: crate::retry::RetryStep<Accepted<B>>,
) where K: Fn(Duration, i64) -> Duration
    requires
        call_ensures(
            download_reqwest::<B, E, K>,
            (Ok(Ok(response)), connect_timeout, streaming_timeout, scale),
            Err(error),
        ),
        call_ensures(crate::retry::retry::<Accepted<B>>, (tries, Err(error)), step),
        tries < 2,
    ensures
        step is Again <==> !(400 <= response.status <= 499),
{
}

/// A request that is not answered in time is a timeout of exactly the time it was given.
pub proof fn law_unanswered_requests_time_out<B, E, K>(
    late: E,
    connect_timeout: Duration,
    streaming_timeout: Duration,
    scale: K,
    accepted: CacheEntry<Accepted<B>>,
) where K: Fn(Duration, i64) -> Duration
    requires
        call_ensures(
            download_reqwest::<B, E, K>,
            (Err(late), connect_timeout, streaming_timeout, scale),
            accepted,
        ),
    ensures
        accepted == Err::<Accepted<B>, CacheError>(CacheError::Timeout(connect_timeout)),
{
}

/// A request that could not be made is a failed download with the root cause of the failure.
pub proof fn law_failed_requests_are_failed_downloads<B, E, K>(
    failure: ErrorChain,
    connect_timeout: Duration,
    streaming_timeout: Duration,
    scale: K,
    accepted: CacheEntry<Accepted<B>>,
    error: CacheError,
) where K: Fn(Duration, i64) -> Duration
    requires
        call_ensures(
            download_reqwest::<B, E, K>,
            (Ok(Err(failure)), connect_timeout, streaming_timeout, scale),
            accepted,
        ),
        call_ensures(CacheError::download_error, (&failure,), error),
    ensures
        accepted matches Err(CacheError::DownloadError(text)) && (error matches
            CacheError::DownloadError(root) && text@ == root@),
{
}

/// An answer is read within a limit exactly if it announces its length, and the limit is the time
/// that a body of that length needs at the given rate: all of it, but 10 seconds at least.
pub proof fn law_answers_are_read_within_their_time<B, E, K>(
    response: Response<B>,
    connect_timeout: Duration,
    streaming_timeout: Duration,
    scale: K,
    accepted: Accepted<B>,
    length: Option<i64>,
) where K: Fn(Duration, i64) -> Duration
    requires
        call_ensures(
            download_reqwest::<B, E, K>,
            (Ok(Ok(response)), connect_timeout, streaming_timeout, scale),
            Ok(accepted),
        ),
        call_ensures(content_length, (&response.content_length,), length),
    ensures
        accepted.limit is Some <==> length is Some,
        accepted.limit matches Some(limit) ==> {
            &&& limit.nanos >= 10_000_000_000
            &&& length->0 < 0 ==> limit.nanos == 10_000_000_000
            &&& length->0 >= 0 ==> exists|scaled: Duration|
                {
                    &&& #[trigger] call_ensures(scale, (streaming_timeout, length->0), scaled)
                    &&& limit.nanos >= scaled.nanos
                    &&& limit.nanos > 10_000_000_000 ==> limit == scaled
                }
        },
{
}

/// Every outcome of a request is decided upon: there is no status and no announced length that is
/// not judged, provided that lengths that are not negative can be multiplied.
pub proof fn law_every_request_is_judged<B, E, K>(
    sent: Result<Result<Response<B>, ErrorChain>, E>,
    connect_timeout: Duration,
    streaming_timeout: Duration,
    scale: K,
    details: String,
) where K: Fn(Duration, i64) -> Duration
    requires
        forall|length: i64|
            length >= 0 ==> #[trigger] call_requires(scale, (streaming_timeout, length)),
        sent matches Ok(Ok(response)) ==> 100 <= response.status <= 999,
    ensures
        call_requires(
            download_reqwest::<B, E, K>,
            (sent, connect_timeout, streaming_timeout, scale),
        ),
        sent matches Ok(Ok(response)) ==> call_requires(check_status, (response.status, details)),
{
}

} // verus!

//! One relay call from end to end: the request is checked, and only a request
//! that passes is sent and answered.

use vstd::prelude::*;
use crate::error::{ErrorKind, Failure};
use crate::grammar::is_method_text;
use crate::headers::{
    all_well_formed, first_fault_index, first_fault_is_first, header_fault, is_first_fault,
    HeaderPairs,
};
use crate::json::decoded;
use crate::request::{rejection, sound_request_is_not_refused, RequestModel};
use crate::response::{outcome_of, Exchange, ResponseModel};
use crate::trusted::INVALID_METHOD_TEXT;

verus! {

/// What a relay call comes to for `request` when the transport, were it
/// asked, would report `exchange`. A refused request fails as it was refused,
/// whatever the transport would have said.
pub open spec fn relay_outcome(request: RequestModel, exchange: Exchange) -> Result<
    ResponseModel,
    Failure,
> {
    match rejection(request) {
        Some(failure) => Err(failure),
        None => outcome_of(exchange),
    }
}

/// A sound request that is answered yields a response with the server's
/// status, whose `ok` is true exactly for a status in 200 to 299, and whose
/// body is the decoded body.
pub proof fn answered_request_reports_success_by_status(request: RequestModel, exchange: Exchange)
    requires
        request.is_sound(),
        exchange is Received,
    ensures
        relay_outcome(request, exchange) is Ok,
        relay_outcome(request, exchange)->Ok_0.status == exchange->status,
        relay_outcome(request, exchange)->Ok_0.ok == (200 <= exchange->status <= 299),
        relay_outcome(request, exchange)->Ok_0.body == decoded(exchange->body@),
{
    sound_request_is_not_refused(request);
}

/// A request whose method is not a token fails with `invalid method: ` and
/// the reason, and it fails so whatever the transport would have done: the
/// transport has no part in it.
pub proof fn invalid_method_is_refused(request: RequestModel, exchange: Exchange)
    requires
        !is_method_text(request.method),
    ensures
        relay_outcome(request, exchange) is Err,
        relay_outcome(request, exchange)->Err_0 == (Failure::InvalidMethod {
            detail: INVALID_METHOD_TEXT@,
        }),
        relay_outcome(request, exchange)->Err_0.kind() == ErrorKind::Validation,
        "invalid method: "@.is_prefix_of(relay_outcome(request, exchange)->Err_0.message()),
{
}

/// A request with a sound method fails on its first malformed header: with
/// `invalid header name ` where that header's name is at fault, else with
/// `invalid header value for `, in both cases followed by that header's key.
/// The transport has no part in it.
pub proof fn first_malformed_header_is_the_failure(
    request: RequestModel,
    pairs: HeaderPairs,
    i: int,
    exchange: Exchange,
) -> (failure: Failure)
    requires
        is_method_text(request.method),
        request.headers == Some(pairs),
        is_first_fault(pairs, i),
    ensures
        relay_outcome(request, exchange) is Err,
        relay_outcome(request, exchange)->Err_0 == failure,
        header_fault(pairs[i].0, pairs[i].1) == Some(failure),
        failure.kind() == ErrorKind::Validation,
        failure.key() == pairs[i].0,
        failure.opening().is_prefix_of(failure.message()),
{
    first_fault_is_first(pairs);
    header_fault(pairs[i].0, pairs[i].1)->0
}

/// A request with a sound method and any malformed header at all fails with
/// a header failure, which names the key of the first header that is
/// malformed.
pub proof fn malformed_header_is_refused(
    request: RequestModel,
    pairs: HeaderPairs,
    i: int,
    exchange: Exchange,
) -> (failure: Failure)
    requires
        is_method_text(request.method),
        request.headers == Some(pairs),
        0 <= i < pairs.len(),
        header_fault(pairs[i].0, pairs[i].1) is Some,
    ensures
        relay_outcome(request, exchange) is Err,
        relay_outcome(request, exchange)->Err_0 == failure,
        failure is InvalidHeaderName || failure is InvalidHeaderValue,
        failure.opening().is_prefix_of(failure.message()),
        exists|k: int|
            0 <= k <= i && #[trigger] is_first_fault(pairs, k) && failure.key() == pairs[k].0,
{
    let k: int = first_fault_index(pairs, i);
    first_malformed_header_is_the_failure(request, pairs, k, exchange)
}

/// Whatever is refused is refused as a validation failure, and whatever
/// fails after a request was let through fails as a network failure.
pub proof fn failures_fall_in_two_classes(request: RequestModel, exchange: Exchange)
    ensures
        rejection(request) is Some ==> rejection(request)->0.kind() == ErrorKind::Validation,
        rejection(request) is None && relay_outcome(request, exchange) is Err ==> relay_outcome(
            request,
            exchange,
        )->Err_0.kind() == ErrorKind::Network,
{
    if let Some(pairs) = request.headers {
        first_fault_is_first(pairs);
        if !all_well_formed(pairs) {
            let i: int = choose|i: int|
                0 <= i < pairs.len() && !(header_fault(#[trigger] pairs[i].0, pairs[i].1) is None);
            first_fault_index(pairs, i);
        }
    }
}

} // verus!

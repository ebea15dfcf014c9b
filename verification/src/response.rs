//! The uniform response, and how the outcome of one dispatched request is
//! turned into it or into a failure.

use vstd::prelude::*;
use serde_json::Value;
use crate::error::{ErrorKind, Failure, RelayError};
use crate::json::{decode_body, decoded, JsonModel};
use crate::trusted::json_model;

verus! {

/// Whether a status code reports success: the codes 200 to 299.
pub open spec fn is_success(status: u16) -> bool {
    200 <= status <= 299
}

/// The mathematical model of an [`HttpResponse`].
pub struct ResponseModel {
    pub status: u16,
    pub ok: bool,
    pub body: JsonModel,
}

/// What a caller gets back for a request that was answered. `ok` always
/// agrees with `status`; no value of this type exists for which it does not.
#[derive(Debug, PartialEq)]
pub struct HttpResponse {
    status: u16,
    ok: bool,
    body: Value,
}

impl View for HttpResponse {
    type V = ResponseModel;

    closed spec fn view(&self) -> ResponseModel {
        ResponseModel { status: self.status, ok: self.ok, body: json_model(self.body) }
    }
}

impl HttpResponse {
    #[verifier::type_invariant]
    spec fn coherent(self) -> bool {
        self.ok == is_success(self.status)
    }

    /// The response with the given status and body; `ok` follows from the
    /// status.
    pub fn new(status: u16, body: Value) -> (r: HttpResponse)
        ensures
            r@ == (ResponseModel { status, ok: is_success(status), body: json_model(body) }),
    {
        HttpResponse { status, ok: 200 <= status && status <= 299, body }
    }

    /// The status code the server answered with.
    pub fn status(&self) -> (status: u16)
        ensures
            status == self@.status,
    {
        self.status
    }

    /// Whether the status code reports success.
    pub fn ok(&self) -> (ok: bool)
        ensures
            ok == self@.ok,
            ok == is_success(self@.status),
    {
        proof {
            use_type_invariant(self);
        }
        self.ok
    }

    /// The decoded body.
    pub fn body(&self) -> (body: &Value)
        ensures
            json_model(*body) == self@.body,
    {
        &self.body
    }

    /// Takes the response apart: status, `ok` and body.
    pub fn into_parts(self) -> (parts: (u16, bool, Value))
        ensures
            parts.0 == self@.status,
            parts.1 == self@.ok,
            parts.1 == is_success(self@.status),
            json_model(parts.2) == self@.body,
    {
        proof {
            use_type_invariant(&self);
        }
        (self.status, self.ok, self.body)
    }
}

/// What the transport reports of one dispatched request.
#[derive(Debug, PartialEq, Eq)]
pub enum Exchange {
    /// The request could not be delivered, or no response came back.
    SendFailed { cause: String },
    /// A response came back, but its body broke off before the end.
    ReadFailed { cause: String },
    /// A response came back whole.
    Received { status: u16, body: Vec<u8> },
}

/// What a caller is owed for an exchange: the response for one that came back
/// whole, whatever its status and whatever its bytes, and a network failure
/// that carries the transport's own words for the other two.
pub open spec fn outcome_of(exchange: Exchange) -> Result<ResponseModel, Failure> {
    match exchange {
        Exchange::SendFailed { cause } => Err(Failure::RequestFailed { detail: cause@ }),
        Exchange::ReadFailed { cause } => Err(Failure::BodyRead { detail: cause@ }),
        Exchange::Received { status, body } => Ok(
            ResponseModel { status, ok: is_success(status), body: decoded(body@) },
        ),
    }
}

/// Turns the outcome of a dispatched request into the caller's result.
pub fn conclude(exchange: Exchange) -> (r: Result<HttpResponse, RelayError>)
    ensures
        match outcome_of(exchange) {
            Ok(model) => r matches Ok(response) && response@ == model,
            Err(failure) => r matches Err(e) && e@ == failure,
        },
{
    match exchange {
        Exchange::SendFailed { cause } => Err(RelayError::RequestFailed { detail: cause }),
        Exchange::ReadFailed { cause } => Err(RelayError::BodyRead { detail: cause }),
        Exchange::Received { status, body } => {
            let value = decode_body(body.as_slice());
            Ok(HttpResponse::new(status, value))
        },
    }
}

/// An exchange that came back whole is always answered, with the status the
/// server gave, and `ok` says exactly whether that status is in 200 to 299.
pub proof fn answer_reports_success_by_status(exchange: Exchange)
    requires
        exchange is Received,
    ensures
        outcome_of(exchange) is Ok,
        outcome_of(exchange)->Ok_0.status == exchange->status,
        outcome_of(exchange)->Ok_0.ok == (200 <= exchange->status <= 299),
        outcome_of(exchange)->Ok_0.body == decoded(exchange->body@),
{
}

/// An exchange that did not come back whole is a network failure that says
/// which step broke and repeats the transport's own words.
pub proof fn broken_exchange_is_network_failure(exchange: Exchange)
    requires
        !(exchange is Received),
    ensures
        outcome_of(exchange) is Err,
        outcome_of(exchange)->Err_0.kind() == ErrorKind::Network,
        exchange is SendFailed ==> outcome_of(exchange)->Err_0.message() == "request failed: "@
            + exchange->SendFailed_cause@,
        exchange is ReadFailed ==> outcome_of(exchange)->Err_0.message()
            == "failed to read response body: "@ + exchange->ReadFailed_cause@,
{
}

} // verus!

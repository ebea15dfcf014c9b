//! The request a caller describes, and the check that turns it into a
//! request fit to be sent.

use vstd::prelude::*;
use vstd::utf8::encode_utf8;
use http::header::{HeaderMap, HeaderValue};
use http::method::Method;
use serde_json::Value;
use crate::error::{Failure, RelayError};
use crate::grammar::{is_method_text, method_text_is_its_bytes};
use crate::headers::{
    all_well_formed, attached, build_headers, first_fault, first_fault_is_first, HeaderPairs,
};
use crate::json::JsonModel;
use crate::trusted::{
    header_entries, invalid_method_detail, json_model, method_bytes, HeaderEntries,
    HEADER_TABLE_ROOM, INVALID_METHOD_TEXT,
};

verus! {

/// One request as a caller describes it. Nothing in it has been checked.
#[derive(Debug, PartialEq)]
pub struct HttpRequest {
    /// The method, for instance `GET`.
    pub method: String,
    /// The address the request goes to.
    pub url: String,
    /// Header keys and values, in the order in which they are to be looked
    /// at. Where a key is given twice, in whatever case, the later one is
    /// the one that is sent.
    pub headers: Option<Vec<(String, String)>>,
    /// A JSON value to send as the body.
    pub body: Option<Value>,
}

/// The mathematical model of an [`HttpRequest`].
pub struct RequestModel {
    pub method: Seq<char>,
    pub url: Seq<char>,
    pub headers: Option<HeaderPairs>,
    pub body: Option<JsonModel>,
}

impl View for HttpRequest {
    type V = RequestModel;

    open spec fn view(&self) -> RequestModel {
        RequestModel {
            method: self.method@,
            url: self.url@,
            headers: match self.headers {
                Some(pairs) => Some(pairs.deep_view()),
                None => None,
            },
            body: match self.body {
                Some(value) => Some(json_model(value)),
                None => None,
            },
        }
    }
}

/// A request that passed every check, in the form the transport takes.
#[derive(Debug, PartialEq)]
pub struct Outbound {
    pub method: Method,
    pub url: String,
    pub headers: Option<HeaderMap<HeaderValue>>,
    pub body: Option<Value>,
}

/// The mathematical model of an [`Outbound`] request.
pub struct OutboundModel {
    /// The method as it is spelled on the wire.
    pub method: Seq<u8>,
    pub url: Seq<char>,
    /// For each header name, in lower case, the values to send under it.
    pub headers: Option<HeaderEntries>,
    pub body: Option<JsonModel>,
}

impl View for Outbound {
    type V = OutboundModel;

    open spec fn view(&self) -> OutboundModel {
        OutboundModel {
            method: method_bytes(self.method),
            url: self.url@,
            headers: match self.headers {
                Some(table) => Some(header_entries(table)),
                None => None,
            },
            body: match self.body {
                Some(value) => Some(json_model(value)),
                None => None,
            },
        }
    }
}

impl RequestModel {
    /// A request is sound when its method is a method and each of its
    /// headers is well formed. Nothing is asked of the address or the body.
    pub open spec fn is_sound(self) -> bool {
        &&& is_method_text(self.method)
        &&& self.headers matches Some(pairs) ==> all_well_formed(pairs)
    }
}

/// Why a request is refused, if it is. The method is judged first, then the
/// headers in order; the address and the body are not judged at all.
pub open spec fn rejection(request: RequestModel) -> Option<Failure> {
    if !is_method_text(request.method) {
        Some(Failure::InvalidMethod { detail: INVALID_METHOD_TEXT@ })
    } else {
        match request.headers {
            Some(pairs) => first_fault(pairs),
            None => None,
        }
    }
}

/// What is sent for a request that is not refused: the method and address
/// as written, the headers attached in order, the body untouched.
pub open spec fn accepted(request: RequestModel) -> OutboundModel {
    OutboundModel {
        method: encode_utf8(request.method),
        url: request.url,
        headers: match request.headers {
            Some(pairs) => Some(attached(pairs)),
            None => None,
        },
        body: request.body,
    }
}

/// The requests that are not refused are exactly the sound ones.
pub proof fn sound_request_is_not_refused(request: RequestModel)
    ensures
        rejection(request) is None <==> request.is_sound(),
{
    if let Some(pairs) = request.headers {
        first_fault_is_first(pairs);
    }
}

/// Reads a method. Any non-empty run of token characters is one, whether or
/// not it is a method that HTTP defines.
pub fn parse_method(method: &str) -> (r: Result<Method, RelayError>)
    ensures
        match r {
            Ok(m) => is_method_text(method@) && method_bytes(m) == encode_utf8(method@),
            Err(e) => !is_method_text(method@) && e@ == (Failure::InvalidMethod {
                detail: INVALID_METHOD_TEXT@,
            }),
        },
{
    proof {
        method_text_is_its_bytes(method@);
    }
    match Method::from_bytes(method.as_bytes()) {
        Ok(m) => Ok(m),
        Err(e) => Err(RelayError::InvalidMethod { detail: invalid_method_detail(&e) }),
    }
}

/// Checks a request and, where nothing is wrong with it, hands back what is
/// to be sent. A refused request yields no [`Outbound`], so nothing can be
/// sent for it.
pub fn prepare(request: HttpRequest) -> (r: Result<Outbound, RelayError>)
    requires
        request.headers matches Some(pairs) ==> pairs.len() <= HEADER_TABLE_ROOM,
    ensures
        match rejection(request@) {
            Some(failure) => r matches Err(e) && e@ == failure,
            None => r matches Ok(outbound) && outbound@ == accepted(request@),
        },
{
    let HttpRequest { method, url, headers, body } = request;
    let method = match parse_method(method.as_str()) {
        Ok(m) => m,
        Err(e) => {
            return Err(e);
        },
    };
    let headers = match headers {
        Some(pairs) => match build_headers(&pairs) {
            Ok(table) => Some(table),
            Err(e) => {
                return Err(e);
            },
        },
        None => None,
    };
    Ok(Outbound { method, url, headers, body })
}

} // verus!

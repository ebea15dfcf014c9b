//! The ways a relay call can fail, as a closed set of variants, and the text
//! each one is reported with.

use vstd::prelude::*;
use vstd::string::StringExecFns;

verus! {

/// Why a relay call produced no response.
#[derive(Debug, PartialEq, Eq)]
pub enum RelayError {
    /// The method is not an HTTP method token.
    InvalidMethod { detail: String },
    /// The header named `key` has a name that is not a field name.
    InvalidHeaderName { key: String, detail: String },
    /// The header named `key` has a value that is not a field value.
    InvalidHeaderValue { key: String, detail: String },
    /// The transport could not deliver the request or obtain a response.
    RequestFailed { detail: String },
    /// A response arrived but its body could not be read to the end.
    BodyRead { detail: String },
}

/// The two classes of failure: the caller's input, or the network.
#[derive(Debug, Clone, Copy, PartialEq, Eq, Structural)]
pub enum ErrorKind {
    /// Malformed input, found before anything is sent.
    Validation,
    /// A failure of the transport, found while sending or receiving.
    Network,
}

/// The mathematical model of a [`RelayError`].
pub enum Failure {
    InvalidMethod { detail: Seq<char> },
    InvalidHeaderName { key: Seq<char>, detail: Seq<char> },
    InvalidHeaderValue { key: Seq<char>, detail: Seq<char> },
    RequestFailed { detail: Seq<char> },
    BodyRead { detail: Seq<char> },
}

impl Failure {
    /// The class this failure belongs to.
    pub open spec fn kind(self) -> ErrorKind {
        match self {
            Failure::InvalidMethod { .. } => ErrorKind::Validation,
            Failure::InvalidHeaderName { .. } => ErrorKind::Validation,
            Failure::InvalidHeaderValue { .. } => ErrorKind::Validation,
            Failure::RequestFailed { .. } => ErrorKind::Network,
            Failure::BodyRead { .. } => ErrorKind::Network,
        }
    }

    /// The key of the header that a header failure is about; empty for the
    /// other failures.
    pub open spec fn key(self) -> Seq<char> {
        match self {
            Failure::InvalidHeaderName { key, .. } => key,
            Failure::InvalidHeaderValue { key, .. } => key,
            _ => Seq::empty(),
        }
    }

    /// The cause, in the words of whatever found it.
    pub open spec fn detail(self) -> Seq<char> {
        match self {
            Failure::InvalidMethod { detail } => detail,
            Failure::InvalidHeaderName { detail, .. } => detail,
            Failure::InvalidHeaderValue { detail, .. } => detail,
            Failure::RequestFailed { detail } => detail,
            Failure::BodyRead { detail } => detail,
        }
    }

    /// What a message opens with: the words of its form and, for a header
    /// failure, the key.
    pub open spec fn opening(self) -> Seq<char> {
        match self {
            Failure::InvalidMethod { .. } => "invalid method: "@,
            Failure::InvalidHeaderName { key, .. } => "invalid header name "@ + key + ": "@,
            Failure::InvalidHeaderValue { key, .. } => "invalid header value for "@ + key + ": "@,
            Failure::RequestFailed { .. } => "request failed: "@,
            Failure::BodyRead { .. } => "failed to read response body: "@,
        }
    }

    /// The message a caller is shown.
    pub open spec fn message(self) -> Seq<char> {
        match self {
            Failure::InvalidMethod { detail } => "invalid method: "@ + detail,
            Failure::InvalidHeaderName { key, detail } => "invalid header name "@ + key + ": "@
                + detail,
            Failure::InvalidHeaderValue { key, detail } => "invalid header value for "@ + key
                + ": "@ + detail,
            Failure::RequestFailed { detail } => "request failed: "@ + detail,
            Failure::BodyRead { detail } => "failed to read response body: "@ + detail,
        }
    }
}

impl View for RelayError {
    type V = Failure;

    open spec fn view(&self) -> Failure {
        match self {
            RelayError::InvalidMethod { detail } => Failure::InvalidMethod { detail: detail@ },
            RelayError::InvalidHeaderName { key, detail } => Failure::InvalidHeaderName {
                key: key@,
                detail: detail@,
            },
            RelayError::InvalidHeaderValue { key, detail } => Failure::InvalidHeaderValue {
                key: key@,
                detail: detail@,
            },
            RelayError::RequestFailed { detail } => Failure::RequestFailed { detail: detail@ },
            RelayError::BodyRead { detail } => Failure::BodyRead { detail: detail@ },
        }
    }
}

impl RelayError {
    /// The class this error belongs to.
    pub fn kind(&self) -> (k: ErrorKind)
        ensures
            k == self@.kind(),
    {
        match self {
            RelayError::InvalidMethod { .. } => ErrorKind::Validation,
            RelayError::InvalidHeaderName { .. } => ErrorKind::Validation,
            RelayError::InvalidHeaderValue { .. } => ErrorKind::Validation,
            RelayError::RequestFailed { .. } => ErrorKind::Network,
            RelayError::BodyRead { .. } => ErrorKind::Network,
        }
    }

    /// The message a caller is shown: one string, whatever the variant.
    pub fn message(&self) -> (s: String)
        ensures
            s@ == self@.message(),
    {
        match self {
            RelayError::InvalidMethod { detail } => {
                let mut s = String::from_str("invalid method: ");
                s.append(detail.as_str());
                s
            },
            RelayError::InvalidHeaderName { key, detail } => {
                let mut s = String::from_str("invalid header name ");
                s.append(key.as_str());
                s.append(": ");
                s.append(detail.as_str());
                s
            },
            RelayError::InvalidHeaderValue { key, detail } => {
                let mut s = String::from_str("invalid header value for ");
                s.append(key.as_str());
                s.append(": ");
                s.append(detail.as_str());
                s
            },
            RelayError::RequestFailed { detail } => {
                let mut s = String::from_str("request failed: ");
                s.append(detail.as_str());
                s
            },
            RelayError::BodyRead { detail } => {
                let mut s = String::from_str("failed to read response body: ");
                s.append(detail.as_str());
                s
            },
        }
    }
}

/// Every message is the opening of its form followed by the detail, so the
/// forms can be told apart by how a message begins, and a header failure
/// names its key before anything else.
pub proof fn message_opens_with_its_form(failure: Failure)
    ensures
        failure.message() == failure.opening() + failure.detail(),
        failure.opening().is_prefix_of(failure.message()),
{
}

} // verus!

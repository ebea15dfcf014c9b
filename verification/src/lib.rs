//! The decision-making core of an HTTP relay: it checks a caller's request
//! against the HTTP grammar before anything is sent, and turns whatever the
//! transport reports back into one uniform response or one typed failure.
//!
//! The crate never touches the network. A host program dispatches the
//! [`Outbound`] request that [`prepare`] returns and hands what came of it,
//! as an [`Exchange`], to [`conclude`].

pub mod error;
pub mod grammar;
pub mod headers;
pub mod json;
pub mod relay;
pub mod request;
pub mod response;
pub mod trusted;

pub use error::{ErrorKind, RelayError};
pub use headers::build_headers;
pub use json::{body_from, decode_body};
pub use request::{parse_method, prepare, HttpRequest, Outbound};
pub use response::{conclude, Exchange, HttpResponse};
pub use trusted::HEADER_TABLE_ROOM;

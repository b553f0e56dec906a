//! The request-execution core of a desktop API-testing tool.
//!
//! One call takes a request descriptor (method, URL, headers, body),
//! normalizes it, and, once the transport has answered, turns what came back
//! into a normalized response. The network round trip itself is not part of
//! this crate: a caller sends what `prepare_request` hands out and gives the
//! outcome to `conclude`.

use vstd::prelude::*;

pub mod format;
pub mod header;
pub mod laws;
pub mod model;
pub mod normalize;
pub mod response;
pub mod text;

pub use crate::format::format_json;
pub use crate::model::HttpClientError;
pub use crate::model::HttpHeader;
pub use crate::model::HttpMethod;
pub use crate::model::HttpRequest;
pub use crate::normalize::prepare_request;
pub use crate::normalize::PreparedRequest;
pub use crate::response::build_response;
pub use crate::response::conclude;
pub use crate::response::HttpResponse;
pub use crate::response::TransportOutcome;

verus! {

/// State that the desktop shell keeps for the whole run. The request core is
/// stateless, so there is nothing in it.
pub struct AppState {}

} // verus!

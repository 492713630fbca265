//! The dispatcher's two verified halves.
//!
//! The network round trip itself is outside code; this module fixes
//! exactly what goes out for a given descriptor ([`prepare`]) and how
//! the transport's raw answer becomes a response descriptor
//! ([`crate::response::ResponseDescriptor::assemble`]). The caller
//! performs the one round trip between the two and maps a transport
//! failure to [`crate::error::HttpError::TransportError`].

use vstd::prelude::*;
use crate::json::json_body;
use crate::request::{Method, RequestDescriptor};

verus! {

/// Exactly what is handed to the transport: the method, the absolute
/// URL, and — for POST only — the serialized JSON object body, which
/// is sent with a `Content-Type: application/json` header.
#[derive(Debug, Clone)]
pub struct OutboundRequest {
    pub method: Method,
    pub url: String,
    pub body_json: Option<String>,
}

/// Turns a descriptor into the outbound call: a GET carries no body; a
/// POST carries its pairs serialized as a JSON object, keys in given
/// order, a repeated key overwritten as an object constructor would.
pub fn prepare(d: &RequestDescriptor) -> (r: OutboundRequest)
    ensures
        r.method == d.method,
        r.url@ == d.url@,
        d.method is Get ==> r.body_json is None,
        d.method is Post ==> (r.body_json matches Some(b) && b@ == json_body(d.body@)),
{
    match d.method {
        Method::Get => OutboundRequest { method: Method::Get, url: d.url.clone(), body_json: None },
        Method::Post => OutboundRequest {
            method: Method::Post,
            url: d.url.clone(),
            body_json: Some(crate::json::render_json_body(&d.body)),
        },
    }
}

} // verus!

//! A verified toolkit centred on a small command-line HTTP client.
//!
//! The client core runs in three stages, each with a proved contract:
//!
//! - [`request`] builds a validated, immutable request descriptor from
//!   a raw URL and `key=value` body tokens ([`kv`]);
//! - [`dispatch`] fixes exactly what goes over the wire — for a POST,
//!   the body pairs serialized as a JSON object ([`json`]) — and
//!   [`response`] turns the transport's raw answer into a response
//!   descriptor, whatever its status code;
//! - [`render`] produces the final output: status line, headers in
//!   arrival order, and the body formatted by its content kind
//!   ([`content`]).
//!
//! The one network round trip itself, like all I/O, stays with the
//! caller; [`error`] fixes the client's whole failure taxonomy.
//!
//! Around the core stand smaller verified pieces: line search
//! ([`grep`]), tokenizing ([`strtok`]), text helpers ([`text`]), and a
//! set of compact worked examples ([`arith`], [`coins`], [`colors`],
//! [`cons_list`], [`cow`], [`deref_demo`], [`guess`], [`rect`],
//! [`shirts`], [`tracker`]).

pub mod arith;
pub mod coins;
pub mod colors;
pub mod cons_list;
pub mod content;
pub mod cow;
pub mod deref_demo;
pub mod dispatch;
pub mod error;
pub mod grep;
pub mod guess;
pub mod json;
pub mod kv;
pub mod rect;
pub mod render;
pub mod request;
pub mod response;
pub mod shirts;
pub mod strtok;
pub mod text;
pub mod tracker;

pub use arith::add;
pub use arith::add_one;

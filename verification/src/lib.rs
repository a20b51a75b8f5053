//! A relay that serves stored procedures of a database as JSON endpoints.
//!
//! Which endpoints there are is not written down here: the database
//! declares them, each with a path, the name of a stored procedure and the
//! JSON Schemas of its request and its result. The relay reads those rows,
//! compiles a validator for each request schema, and keeps the endpoints in
//! a registry by path. A request is held to its endpoint's schema before
//! anything is sent to the database.
//!
//! This crate holds the decisions, and proves them against their
//! contracts:
//!
//! - [`row`] reads the rows of a query, column by column;
//! - [`endpoint`] is one endpoint: it admits or refuses a body, names the
//!   call to make, and describes itself as an OpenAPI path item;
//! - [`endpoint_index`] is the registry: it is built from rows, whole or
//!   not at all, looked up by path, and written out as an OpenAPI document;
//! - [`service`] is the dispatcher: it routes a request, gates a reload
//!   behind the admin secret, and turns every outcome into a response;
//! - [`error`] is what can go wrong, in words and as a status.
//!
//! Sockets, the connection pool and the settings file belong to the
//! program around this crate. It hands rows, headers and bodies in as plain
//! values and acts on what comes back.
//!
//! Three things are used as other crates make them, and believed rather
//! than proved: JSON documents ([`json`], by `serde_json`), schema
//! validation ([`schema`], by `jsonschema`) and the routing table
//! ([`table`], a `DashMap`). Each call into them is a function of a few
//! lines whose contract says what is taken on trust.

use vstd::prelude::*;

pub mod config;
pub mod endpoint;
pub mod endpoint_index;
pub mod error;
pub mod json;
pub mod row;
pub mod schema;
pub mod service;
pub mod table;
mod text;

verus! {

/// Moves `value` to the heap and gives it up for good, so that it can be
/// shared for the rest of the process without counting references.
pub fn leak<T>(value: T) -> (shared: &'static T)
    ensures
        *shared == value,
{
    leak_box(Box::new(value))
}

/// `Box::leak`: the reference points at what the box held.
#[verifier::external_body]
fn leak_box<T>(boxed: Box<T>) -> (shared: &'static T)
    ensures
        *shared == *boxed,
{
    Box::leak(boxed)
}

} // verus!

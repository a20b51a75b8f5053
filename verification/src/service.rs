//! The dispatcher: what to do with a request, step by step.
//!
//! Reading the request, talking to the database and writing the response
//! are the caller's part. Between them stand the decisions, which are made
//! here: [`service`] says what a request calls for, [`reload`] and
//! [`invoke`] carry on once the caller has the rows or the body, and
//! [`respond`] turns what came of it into a status and a body.

use crate::config::Config;
use crate::endpoint::{Call, Endpoint};
use crate::endpoint_index::{
    index_document, index_of, normalize_path, normalized_path, refused, reloaded, EndpointIndex,
};
use crate::error::{kind_status, AuthError, Error};
use crate::json::{
    json_count, json_object, json_of, json_parse, json_render, json_string, json_text, object_new,
    parsed, put, JsonDoc,
};
use crate::row::{rows_view, Row};
use crate::schema::schema_accepts;
use crate::text::{same_bytes, same_text};
use serde_json::Value;
use std::sync::Arc;
use vstd::prelude::*;
use vstd::utf8::encode_utf8;

verus! {

/// What a request is for.
#[derive(Debug)]
pub enum Route {
    /// `GET /`: the OpenAPI document.
    Schema,
    /// `DELETE /cache`: a reload of the registry.
    Refresh,
    /// `POST` to a path: a call of the endpoint under that path, which
    /// stands here without its leading slash.
    Invoke(String),
    /// Anything else.
    NotFound,
}

/// The content of a [`Route`].
pub enum RouteView {
    Schema,
    Refresh,
    Invoke(Seq<char>),
    NotFound,
}

impl View for Route {
    type V = RouteView;

    open spec fn view(&self) -> RouteView {
        match *self {
            Route::Schema => RouteView::Schema,
            Route::Refresh => RouteView::Refresh,
            Route::Invoke(path) => RouteView::Invoke(path@),
            Route::NotFound => RouteView::NotFound,
        }
    }
}

/// A request, as far as the dispatcher looks at it, and what it is held
/// against.
pub struct ServiceParams<'a> {
    pub endpoint_index: &'a EndpointIndex,
    pub config: &'a Config,
    /// The method, in capitals.
    pub method: &'a str,
    /// The path of the request's target.
    pub path: &'a str,
    /// The bytes of the admin header, if the request has one.
    pub admin_key: Option<&'a [u8]>,
}

/// What the caller is to do next.
pub enum Action {
    /// Answer with this outcome; nothing else is to be done.
    Reply(Result<Value, Error>),
    /// Run the two queries and hand the rows to [`reload`].
    Refresh,
    /// Read the body and hand it to [`invoke`] with this endpoint.
    Invoke(Arc<Endpoint>),
}

/// A response: the status, and the body, which is JSON and is sent as
/// such.
#[derive(Debug)]
pub struct Response {
    pub status: u16,
    pub content_type: &'static str,
    pub body: String,
}

/// The route of a request with the given method and path.
pub open spec fn route_of(method: Seq<char>, path: Seq<char>) -> RouteView {
    if method == "GET"@ && path == "/"@ {
        RouteView::Schema
    } else if method == "DELETE"@ && path == "/cache"@ {
        RouteView::Refresh
    } else if method == "POST"@ {
        RouteView::Invoke(normalized_path(path))
    } else {
        RouteView::NotFound
    }
}

/// Whether a byte of a header is a printable character or a tab.
pub open spec fn visible(byte: u8) -> bool {
    (32 <= byte && byte < 127) || byte == 9
}

/// Whether a header is text: every byte of it is visible.
pub open spec fn printable(bytes: Seq<u8>) -> bool {
    forall|i: int| 0 <= i < bytes.len() ==> visible(#[trigger] bytes[i])
}

/// Why a reload is refused, if it is: a secret is configured, and the
/// header is missing, is not text, or is not the secret byte for byte.
pub open spec fn refusal_of(secret: Option<Seq<u8>>, token: Option<Seq<u8>>) -> Option<AuthError> {
    match secret {
        None => None,
        Some(secret) => match token {
            None => Some(AuthError::MissingToken),
            Some(token) => if !printable(token) {
                Some(AuthError::MalformedToken)
            } else if token != secret {
                Some(AuthError::WrongToken)
            } else {
                None
            },
        },
    }
}

/// The bytes of the configured secret, in UTF-8, if there is one.
pub open spec fn secret_of(config: Config) -> Option<Seq<u8>> {
    match config.admin_key {
        Some(key) => Some(encode_utf8(key@)),
        None => None,
    }
}

/// The bytes of a header, if there is one.
pub open spec fn token_of(header: Option<&[u8]>) -> Option<Seq<u8>> {
    match header {
        Some(bytes) => Some(bytes@),
        None => None,
    }
}

/// The body of a successful reload: the number of endpoints before and
/// after.
pub open spec fn counts_document(old_count: int, new_count: int) -> JsonDoc {
    JsonDoc::Record(
        map![
            "old_endpoint_count"@ => JsonDoc::Integer(old_count),
            "new_endpoint_count"@ => JsonDoc::Integer(new_count),
        ],
    )
}

/// The body of a failure.
pub open spec fn error_document(message: Seq<char>) -> JsonDoc {
    JsonDoc::Record(map!["error"@ => JsonDoc::Text(message)])
}

/// The content type of every response.
pub open spec fn json_content_type() -> Seq<char> {
    "application/json"@
}

/// The body that stands in for one that could not be written out.
pub open spec fn unwritten_body() -> Seq<char> {
    "{\"error\":\"response could not be serialized\"}"@
}

/// The status that an outcome is answered with.
pub open spec fn status_of(outcome: Result<Value, Error>) -> u16 {
    match outcome {
        Ok(_) => 200,
        Err(error) => kind_status(error.kind_of()),
    }
}

/// The document that an outcome is answered with: the value itself, or the
/// failure in words under `error`.
pub open spec fn body_of(outcome: Result<Value, Error>) -> JsonDoc {
    match outcome {
        Ok(value) => json_of(value),
        Err(error) => error_document(error.message_of()),
    }
}

/// What [`invoke`] comes to for an endpoint with the given request schema
/// and a body: whether the body is JSON, and whether it meets the schema.
pub open spec fn admitted(schema: JsonDoc, body: Seq<u8>) -> Option<JsonDoc> {
    match parsed(body) {
        Some(doc) => if schema_accepts(schema, doc) {
            Some(doc)
        } else {
            None
        },
        None => None,
    }
}

/// A reload goes ahead where no secret is configured, and where the header
/// is the configured secret and that secret is text.
pub proof fn lemma_reload_goes_ahead(secret: Option<Seq<u8>>, token: Option<Seq<u8>>)
    requires
        secret is None || (token == secret && printable(secret->0)),
    ensures
        refusal_of(secret, token) is None,
{
}

/// With a secret configured, a reload is refused whenever the header is
/// missing or is anything but the secret.
pub proof fn lemma_reload_is_refused(secret: Option<Seq<u8>>, token: Option<Seq<u8>>)
    requires
        secret is Some,
        token != secret,
    ensures
        refusal_of(secret, token) is Some,
        token is None ==> refusal_of(secret, token) == Some(AuthError::MissingToken),
{
}

/// Finds the route of a request.
pub fn route(method: &str, path: &str) -> (found: Route)
    ensures
        found@ == route_of(method@, path@),
{
    if same_text(method, "GET") && same_text(path, "/") {
        Route::Schema
    } else if same_text(method, "DELETE") && same_text(path, "/cache") {
        Route::Refresh
    } else if same_text(method, "POST") {
        Route::Invoke(normalize_path(String::from_str(path)))
    } else {
        Route::NotFound
    }
}

/// Whether every byte of a header is visible.
fn is_printable(bytes: &[u8]) -> (all: bool)
    ensures
        all == printable(bytes@),
{
    let mut n: usize = 0;
    while n < bytes.len()
        invariant
            0 <= n <= bytes.len(),
            forall|i: int| 0 <= i < n ==> visible(#[trigger] bytes@[i]),
        decreases bytes.len() - n,
    {
        let byte = bytes[n];
        if !((32 <= byte && byte < 127) || byte == 9) {
            return false;
        }
        n = n + 1;
    }
    true
}

/// Holds the admin header of a request against the configured secret.
/// Without a configured secret every request passes.
pub fn authorize(config: &Config, header: Option<&[u8]>) -> (verdict: Result<(), AuthError>)
    ensures
        match refusal_of(secret_of(*config), token_of(header)) {
            Some(refusal) => verdict == Err::<(), AuthError>(refusal),
            None => verdict is Ok,
        },
{
    match &config.admin_key {
        None => Ok(()),
        Some(secret) => match header {
            None => Err(AuthError::MissingToken),
            Some(token) => {
                if !is_printable(token) {
                    Err(AuthError::MalformedToken)
                } else if !same_bytes(token, secret.as_str().as_bytes()) {
                    Err(AuthError::WrongToken)
                } else {
                    Ok(())
                }
            },
        },
    }
}

/// Decides what a request calls for. The registry is only read: whatever
/// the request, and whatever its header, the registry stays as it is.
///
/// - `GET /` is answered with the OpenAPI document.
/// - `DELETE /cache` asks for a reload if the header passes, and is
///   answered with the refusal if it does not.
/// - `POST` to the path of an endpoint asks for a call of that endpoint;
///   to any other path it is answered with `NotFound`.
/// - Every other request is answered with `NotFound`.
pub fn service(params: ServiceParams<'_>) -> (action: Action)
    ensures
        match route_of(params.method@, params.path@) {
            RouteView::Schema => action matches Action::Reply(Ok(document)) && json_of(document)
                == index_document(params.endpoint_index@),
            RouteView::Refresh => match refusal_of(
                secret_of(*params.config),
                token_of(params.admin_key),
            ) {
                Some(refusal) => action matches Action::Reply(Err(error)) && error == Error::Auth(
                    refusal,
                ),
                None => action is Refresh,
            },
            RouteView::Invoke(path) => if params.endpoint_index@.table.contains_key(path) {
                action matches Action::Invoke(endpoint) && (*endpoint)@
                    == params.endpoint_index@.table[path]
            } else {
                action matches Action::Reply(Err(error)) && error == Error::NotFound
            },
            RouteView::NotFound => action matches Action::Reply(Err(error)) && error
                == Error::NotFound,
        },
{
    match route(params.method, params.path) {
        Route::Schema => Action::Reply(Ok(params.endpoint_index.get_schema())),
        Route::Refresh => match authorize(params.config, params.admin_key) {
            Ok(()) => Action::Refresh,
            Err(refusal) => Action::Reply(Err(Error::Auth(refusal))),
        },
        Route::Invoke(path) => match params.endpoint_index.get_endpoint(path.as_str()) {
            Ok(endpoint) => Action::Invoke(endpoint),
            Err(error) => Action::Reply(Err(error)),
        },
        Route::NotFound => Action::Reply(Err(Error::NotFound)),
    }
}

/// Puts a registry that was built aside in the place of the current one,
/// and reports the number of endpoints before and after.
pub fn publish(index: &mut EndpointIndex, built: EndpointIndex) -> (report: Value)
    ensures
        *final(index) == built,
        json_of(report) == counts_document(
            old(index)@.table.len() as int,
            built@.table.len() as int,
        ),
{
    let old_endpoint_count = index.get_count();
    *index = built;
    let new_endpoint_count = index.get_count();
    let mut report = object_new();
    put(&mut report, "old_endpoint_count", json_count(old_endpoint_count));
    put(&mut report, "new_endpoint_count", json_count(new_endpoint_count));
    json_object(report)
}

/// Carries out a reload with the rows that the two queries returned: builds
/// the registry anew, puts it in the place of the current one, and reports
/// the number of endpoints before and after. Where the rows do not amount
/// to a registry, the current one stays as it was and the reason comes
/// back.
pub fn reload(index: &mut EndpointIndex, info_rows: &Vec<Row>, endpoint_rows: &Vec<Row>) -> (outcome:
    Result<Value, Error>)
    ensures
        reloaded(*old(index), *final(index), rows_view(info_rows@), rows_view(endpoint_rows@)),
        match index_of(rows_view(info_rows@), rows_view(endpoint_rows@)) {
            Ok(built) => outcome matches Ok(report) && json_of(report) == counts_document(
                old(index)@.table.len() as int,
                built.table.len() as int,
            ),
            Err(refusal) => outcome matches Err(error) && refused(error, refusal),
        },
{
    match EndpointIndex::fetch(info_rows, endpoint_rows) {
        Ok(built) => Ok(publish(index, built)),
        Err(error) => Err(error),
    }
}

/// Decides what to do with the body of a request to `endpoint`. A body
/// that is not JSON is a `Serialization` failure, one that does not meet
/// the request schema a `Validation` failure, and in both cases nothing is
/// to be called. Otherwise the call to make comes back: the endpoint's
/// statement, with the body's document for its one argument.
pub fn invoke(endpoint: &Endpoint, body: &[u8]) -> (planned: Result<Call, Error>)
    ensures
        match planned {
            Ok(call) => {
                &&& admitted(endpoint@.request_schema, body@) == Some(json_of(call.argument))
                &&& call.statement@ == endpoint@.statement
            },
            Err(error) => {
                &&& admitted(endpoint@.request_schema, body@) is None
                &&& error is Serialization <==> parsed(body@) is None
                &&& error is Validation <==> parsed(body@) is Some
            },
        },
{
    match json_parse(body) {
        Ok(request_data) => endpoint.run(&request_data),
        Err(words) => Err(Error::Serialization(words)),
    }
}

/// The response with the given status and the body that writing out came
/// to. Were a body not written, the response would be a 500 with a fixed
/// body.
pub fn reply(status: u16, written: Result<String, String>) -> (response: Response)
    ensures
        response.content_type@ == json_content_type(),
        match written {
            Ok(text) => response.status == status && response.body == text,
            Err(_) => response.status == 500 && response.body@ == unwritten_body(),
        },
{
    match written {
        Ok(body) => Response { status, content_type: "application/json", body },
        Err(_) => Response {
            status: 500,
            content_type: "application/json",
            body: String::from_str("{\"error\":\"response could not be serialized\"}"),
        },
    }
}

/// Turns an outcome into a response. A value is answered with 200 and its
/// own text. A failure is answered with the status of its kind and, for a
/// body, the object whose one member `error` holds its words.
pub fn respond(outcome: Result<Value, Error>) -> (response: Response)
    ensures
        response.content_type@ == json_content_type(),
        response.status == status_of(outcome),
        response.body@ == json_text(body_of(outcome)),
{
    match &outcome {
        Ok(value) => reply(200, json_render(value)),
        Err(error) => {
            let mut envelope = object_new();
            put(&mut envelope, "error", json_string(error.message()));
            reply(error.status(), json_render(&json_object(envelope)))
        },
    }
}

} // verus!

//! One endpoint: a stored procedure behind a request schema.

use crate::error::Error;
use crate::json::{
    at, docs_of, json_array, json_bool, json_clone, json_object, json_of, json_string,
    lemma_at_member, object_new, put, JsonDoc,
};
use crate::row::{rows_view, Cell, CellView, ColumnView, Row};
use crate::schema::{compile, schema_accepts, schema_compiles, validator_of, violation, RequestValidator};
use serde_json::Value;
use vstd::prelude::*;

verus! {

/// An endpoint, ready to take requests: the statement that calls its stored
/// procedure, the validator of its requests, and the two schemas it was
/// declared with.
pub struct Endpoint {
    request_validator: RequestValidator,
    query: String,
    request_schema: Value,
    response_schema: Value,
}

/// What an [`Endpoint`] is made of. The validator is no part of it: it is
/// the one that the request schema compiles to.
pub struct EndpointView {
    /// The text of the statement that calls the stored procedure.
    pub statement: Seq<char>,
    /// The schema that request bodies are held to.
    pub request_schema: JsonDoc,
    /// The schema that describes results; nothing is held to it.
    pub response_schema: JsonDoc,
}

/// One call of a stored procedure that is still to be made.
#[derive(Debug)]
pub struct Call {
    /// The statement to prepare, with one parameter.
    pub statement: String,
    /// The document to bind to that parameter.
    pub argument: Value,
}

/// The statement that calls the stored procedure `fn_name` with one
/// argument.
pub open spec fn statement_text(fn_name: Seq<char>) -> Seq<char> {
    "select "@ + fn_name + "($1)"@
}

/// The schema of the body of every failure: an object with the one member
/// `error`, a string.
pub open spec fn error_schema_document() -> JsonDoc {
    JsonDoc::Record(
        map![
            "type"@ => JsonDoc::Text("object"@),
            "required"@ => JsonDoc::List(seq![JsonDoc::Text("error"@)]),
            "additionalProperties"@ => JsonDoc::Bool(false),
            "properties"@ => JsonDoc::Record(
                map!["error"@ => JsonDoc::Record(map!["type"@ => JsonDoc::Text("string"@)])],
            ),
        ],
    )
}

/// A JSON body with the given schema.
pub open spec fn content_document(schema: JsonDoc) -> JsonDoc {
    JsonDoc::Record(map!["application/json"@ => JsonDoc::Record(map!["schema"@ => schema])])
}

/// A response with a description and a JSON body of the given schema.
pub open spec fn response_document(description: Seq<char>, schema: JsonDoc) -> JsonDoc {
    JsonDoc::Record(
        map![
            "description"@ => JsonDoc::Text(description),
            "content"@ => content_document(schema),
        ],
    )
}

/// The request body of an endpoint: required, JSON, of the request schema.
pub open spec fn request_body_document(schema: JsonDoc) -> JsonDoc {
    JsonDoc::Record(
        map![
            "required"@ => JsonDoc::Bool(true),
            "content"@ => content_document(schema),
        ],
    )
}

/// The three responses of an endpoint: the result under 200, and the body
/// of a failure under 400 and 500.
pub open spec fn responses_document(schema: JsonDoc) -> JsonDoc {
    JsonDoc::Record(
        map![
            "200"@ => response_document("A healthy response for this endpoint"@, schema),
            "400"@ => response_document(
                "An unhealthy response from this endpoint, indicating an error that can avoided"@,
                error_schema_document(),
            ),
            "500"@ => response_document(
                "An unhealthy response from this endpoint, indicating some sort of internal failure"@,
                error_schema_document(),
            ),
        ],
    )
}

/// The OpenAPI path item of an endpoint: one `post` operation that takes
/// the request schema and answers with the response schema, both as they
/// were declared.
pub open spec fn endpoint_document(endpoint: EndpointView) -> JsonDoc {
    JsonDoc::Record(
        map![
            "post"@ => JsonDoc::Record(
                map![
                    "summary"@ => JsonDoc::Text("summary not available"@),
                    "requestBody"@ => request_body_document(endpoint.request_schema),
                    "responses"@ => responses_document(endpoint.response_schema),
                ],
            ),
        ],
    )
}

/// What is wrong with the rows that a stored procedure returned, in
/// words, if they are not one row with one column that holds a document.
pub open spec fn result_fault(rows: Seq<Seq<ColumnView>>) -> Option<Seq<char>> {
    if rows.len() != 1 {
        Some("query returned an unexpected number of rows"@)
    } else if rows[0].len() != 1 {
        Some("query returned an unexpected number of columns"@)
    } else if !(rows[0][0].value is Json) {
        Some("query did not return a JSON document"@)
    } else {
        None
    }
}

/// Where the schema of a JSON body stands in a request body or a response.
pub open spec fn schema_keys() -> Seq<Seq<char>> {
    seq!["content"@, "application/json"@, "schema"@]
}

/// Where the request schema stands in a path item.
pub open spec fn request_keys() -> Seq<Seq<char>> {
    seq!["post"@, "requestBody"@] + schema_keys()
}

/// Where the schema of the response with the given status stands in a path
/// item.
pub open spec fn response_keys(status: Seq<char>) -> Seq<Seq<char>> {
    seq!["post"@, "responses"@, status] + schema_keys()
}

/// The schema of a JSON body is found under `content`, `application/json`
/// and `schema`.
proof fn lemma_schema_in_content(members: Map<Seq<char>, JsonDoc>, schema: JsonDoc)
    requires
        members.contains_key("content"@),
        members["content"@] == content_document(schema),
    ensures
        at(JsonDoc::Record(members), schema_keys()) == Some(schema),
{
    let media = map!["application/json"@ => JsonDoc::Record(map!["schema"@ => schema])];
    let body = map!["schema"@ => schema];
    lemma_at_member(body, "schema"@, Seq::empty());
    assert(seq!["schema"@] + Seq::<Seq<char>>::empty() =~= seq!["schema"@]);
    lemma_at_member(media, "application/json"@, seq!["schema"@]);
    assert(seq!["application/json"@] + seq!["schema"@] =~= seq!["application/json"@, "schema"@]);
    lemma_at_member(members, "content"@, seq!["application/json"@, "schema"@]);
    assert(seq!["content"@] + seq!["application/json"@, "schema"@] =~= schema_keys());
}

/// The path item of an endpoint holds the two schemas as they were
/// declared, the request schema as the schema of the request body and the
/// response schema as that of the 200 response, and the fixed schema of a
/// failure as that of the 400 and the 500 response.
pub proof fn lemma_path_item_embeds(endpoint: EndpointView)
    ensures
        at(endpoint_document(endpoint), request_keys()) == Some(endpoint.request_schema),
        at(endpoint_document(endpoint), response_keys("200"@)) == Some(endpoint.response_schema),
        at(endpoint_document(endpoint), response_keys("400"@)) == Some(error_schema_document()),
        at(endpoint_document(endpoint), response_keys("500"@)) == Some(error_schema_document()),
{
    reveal_strlit("summary");
    reveal_strlit("requestBody");
    reveal_strlit("responses");
    reveal_strlit("required");
    reveal_strlit("content");
    reveal_strlit("description");
    reveal_strlit("200");
    reveal_strlit("400");
    reveal_strlit("500");
    let item = endpoint_document(endpoint)->Record_0;
    let post = item["post"@]->Record_0;
    let request_body = post["requestBody"@]->Record_0;
    let responses = post["responses"@]->Record_0;
    assert("summary"@.len() != "requestBody"@.len());
    assert("summary"@.len() != "responses"@.len());
    assert("requestBody"@.len() != "responses"@.len());
    assert("required"@.len() != "content"@.len());
    assert("description"@.len() != "content"@.len());
    assert("200"@[0] != "400"@[0]);
    assert("200"@[0] != "500"@[0]);
    assert("400"@[0] != "500"@[0]);

    lemma_schema_in_content(request_body, endpoint.request_schema);
    lemma_at_member(post, "requestBody"@, schema_keys());
    lemma_at_member(item, "post"@, seq!["requestBody"@] + schema_keys());
    assert(seq!["post"@] + (seq!["requestBody"@] + schema_keys()) =~= request_keys());

    lemma_path_item_response(endpoint, "200"@, endpoint.response_schema);
    lemma_path_item_response(endpoint, "400"@, error_schema_document());
    lemma_path_item_response(endpoint, "500"@, error_schema_document());
}

/// A response of a path item that holds a schema as its body's holds it
/// where [`response_keys`] says.
proof fn lemma_path_item_response(endpoint: EndpointView, status: Seq<char>, schema: JsonDoc)
    requires
        endpoint_document(endpoint)->Record_0["post"@]->Record_0["responses"@]
            ->Record_0.contains_key(status),
        exists|description: Seq<char>|
            endpoint_document(endpoint)->Record_0["post"@]->Record_0["responses"@]
                ->Record_0[status] == #[trigger] response_document(description, schema),
        endpoint_document(endpoint)->Record_0["post"@]->Record_0.contains_key("responses"@),
    ensures
        at(endpoint_document(endpoint), response_keys(status)) == Some(schema),
{
    reveal_strlit("description");
    reveal_strlit("content");
    assert("description"@.len() != "content"@.len());
    let item = endpoint_document(endpoint)->Record_0;
    let post = item["post"@]->Record_0;
    let responses = post["responses"@]->Record_0;
    let answer = responses[status]->Record_0;
    lemma_schema_in_content(answer, schema);
    lemma_at_member(responses, status, schema_keys());
    lemma_at_member(post, "responses"@, seq![status] + schema_keys());
    assert(seq!["responses"@] + (seq![status] + schema_keys()) =~= seq!["responses"@, status]
        + schema_keys());
    lemma_at_member(item, "post"@, seq!["responses"@, status] + schema_keys());
    assert(seq!["post"@] + (seq!["responses"@, status] + schema_keys()) =~= response_keys(status));
}

/// The schema of the body of every failure.
fn error_schema() -> (schema: Value)
    ensures
        json_of(schema) == error_schema_document(),
{
    let mut error = object_new();
    put(&mut error, "type", json_string(String::from_str("string")));
    let mut properties = object_new();
    put(&mut properties, "error", json_object(error));
    let mut required: Vec<Value> = Vec::new();
    required.push(json_string(String::from_str("error")));
    assert(docs_of(required@) =~= seq![JsonDoc::Text("error"@)]);
    let mut schema = object_new();
    put(&mut schema, "type", json_string(String::from_str("object")));
    put(&mut schema, "required", json_array(required));
    put(&mut schema, "additionalProperties", json_bool(false));
    put(&mut schema, "properties", json_object(properties));
    json_object(schema)
}

/// A JSON body with the given schema.
fn content(schema: Value) -> (document: Value)
    ensures
        json_of(document) == content_document(json_of(schema)),
{
    let mut body = object_new();
    put(&mut body, "schema", schema);
    let mut media = object_new();
    put(&mut media, "application/json", json_object(body));
    json_object(media)
}

/// A response with a description and a JSON body of the given schema.
fn response(description: &str, schema: Value) -> (document: Value)
    ensures
        json_of(document) == response_document(description@, json_of(schema)),
{
    let mut document = object_new();
    put(&mut document, "description", json_string(String::from_str(description)));
    put(&mut document, "content", content(schema));
    json_object(document)
}

impl View for Endpoint {
    type V = EndpointView;

    closed spec fn view(&self) -> EndpointView {
        EndpointView {
            statement: self.query@,
            request_schema: json_of(self.request_schema),
            response_schema: json_of(self.response_schema),
        }
    }
}

impl Endpoint {
    /// The validator is the one that the request schema compiles to.
    #[verifier::type_invariant]
    spec fn well_formed(self) -> bool {
        validator_of(json_of(self.request_schema)) == Some(self.request_validator)
    }

    /// An endpoint for the stored procedure `fn_name`, if `request` is a
    /// JSON Schema. The response schema is kept as it is and never looked
    /// into.
    pub fn from_config(fn_name: String, request: Value, response: Value) -> (made: Result<
        Endpoint,
        Error,
    >)
        ensures
            match made {
                Ok(endpoint) => {
                    &&& schema_compiles(json_of(request))
                    &&& endpoint@ == (EndpointView {
                        statement: statement_text(fn_name@),
                        request_schema: json_of(request),
                        response_schema: json_of(response),
                    })
                },
                Err(error) => !schema_compiles(json_of(request)) && error is SchemaCompile,
            },
    {
        let compiled = compile(&request);
        Endpoint::assemble(fn_name, request, response, compiled)
    }

    /// The endpoint for the stored procedure `fn_name`, given what compiling
    /// `request` came to: the endpoint around the validator, or the failure
    /// with the words that came with it.
    pub fn assemble(
        fn_name: String,
        request: Value,
        response: Value,
        compiled: Result<RequestValidator, String>,
    ) -> (made: Result<Endpoint, Error>)
        requires
            compiled matches Ok(validator) ==> validator_of(json_of(request)) == Some(validator),
        ensures
            match compiled {
                Ok(_) => made matches Ok(endpoint) && endpoint@ == (EndpointView {
                    statement: statement_text(fn_name@),
                    request_schema: json_of(request),
                    response_schema: json_of(response),
                }),
                Err(words) => made == Err::<Endpoint, Error>(Error::SchemaCompile(words)),
            },
    {
        match compiled {
            Ok(request_validator) => {
                let mut query = String::from_str("select ");
                query.append(fn_name.as_str());
                query.append("($1)");
                Ok(
                    Endpoint {
                        request_validator,
                        query,
                        request_schema: request,
                        response_schema: response,
                    },
                )
            },
            Err(words) => Err(Error::SchemaCompile(words)),
        }
    }

    /// Decides what to do with a request body. A body that does not meet
    /// the request schema is refused and nothing is to be called. A body
    /// that meets it gives the call to make: this endpoint's statement,
    /// with the body as it came for its one argument.
    pub fn run(&self, request_data: &Value) -> (planned: Result<Call, Error>)
        ensures
            match planned {
                Ok(call) => {
                    &&& schema_accepts(self@.request_schema, json_of(*request_data))
                    &&& call.statement@ == self@.statement
                    &&& json_of(call.argument) == json_of(*request_data)
                },
                Err(error) => {
                    &&& !schema_accepts(self@.request_schema, json_of(*request_data))
                    &&& error is Validation
                },
            },
    {
        proof {
            use_type_invariant(self);
        }
        match violation(&self.request_validator, request_data) {
            Some(words) => Err(Error::Validation(words)),
            None => Ok(Call { statement: self.query.clone(), argument: json_clone(request_data) }),
        }
    }

    /// The OpenAPI path item of this endpoint.
    pub fn get_schema(&self) -> (document: Value)
        ensures
            json_of(document) == endpoint_document(self@),
    {
        let mut request_body = object_new();
        put(&mut request_body, "required", json_bool(true));
        put(&mut request_body, "content", content(json_clone(&self.request_schema)));
        let mut responses = object_new();
        put(
            &mut responses,
            "200",
            response("A healthy response for this endpoint", json_clone(&self.response_schema)),
        );
        put(
            &mut responses,
            "400",
            response(
                "An unhealthy response from this endpoint, indicating an error that can avoided",
                error_schema(),
            ),
        );
        put(
            &mut responses,
            "500",
            response(
                "An unhealthy response from this endpoint, indicating some sort of internal failure",
                error_schema(),
            ),
        );
        let mut post = object_new();
        put(&mut post, "summary", json_string(String::from_str("summary not available")));
        put(&mut post, "requestBody", json_object(request_body));
        put(&mut post, "responses", json_object(responses));
        let mut item = object_new();
        put(&mut item, "post", json_object(post));
        json_object(item)
    }
}

/// Reads what a stored procedure returned: one row with one column that
/// holds a JSON document gives that document; rows of any other shape are
/// a failure of the database.
pub fn read_result(rows: Vec<Row>) -> (outcome: Result<Value, Error>)
    ensures
        match result_fault(rows_view(rows@)) {
            None => outcome matches Ok(value) && CellView::Json(json_of(value)) == rows_view(
                rows@,
            )[0][0].value,
            Some(fault) => outcome matches Err(Error::Database(words)) && words@ == fault,
        },
{
    let mut rows = rows;
    let ghost before = rows@;
    if rows.len() != 1 {
        return Err(Error::Database(String::from_str("query returned an unexpected number of rows")));
    }
    let row = rows.pop().unwrap();
    assert(row == before[0]);
    let mut columns = row.columns;
    if columns.len() != 1 {
        return Err(
            Error::Database(String::from_str("query returned an unexpected number of columns")),
        );
    }
    let column = columns.pop().unwrap();
    assert(column@ == before[0]@[0]);
    match column.value {
        Cell::Json(value) => Ok(value),
        _ => Err(Error::Database(String::from_str("query did not return a JSON document"))),
    }
}

} // verus!

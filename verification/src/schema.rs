//! Request validators compiled from JSON Schema documents.
//!
//! Compiling and validating are the work of `jsonschema`. The two calls are
//! made here; their results are named, not computed, in contracts.

use crate::json::{json_of, JsonDoc};
use serde_json::Value;
use vstd::prelude::*;

verus! {

/// A validator that `jsonschema` compiled from one schema document.
///
/// `jsonschema::Validator` has a parameter that is bound by a trait of that
/// crate, which the verifier cannot take in a declaration of the type. So
/// the validator is kept in this struct, which the verifier does not look
/// into: all that is known of it is what [`validator_of`] and [`accepts`]
/// name.
#[verifier::external_body]
pub struct RequestValidator {
    inner: jsonschema::Validator,
}

/// What `jsonschema::validator_for` makes of a schema document: the
/// validator, or `None` where the document is no JSON Schema.
pub uninterp spec fn validator_of(schema: JsonDoc) -> Option<RequestValidator>;

/// Whether `jsonschema::Validator::validate` finds nothing wrong with
/// `instance`.
pub uninterp spec fn accepts(validator: RequestValidator, instance: JsonDoc) -> bool;

/// Whether `schema` is a JSON Schema that a validator can be compiled from.
pub open spec fn schema_compiles(schema: JsonDoc) -> bool {
    validator_of(schema) is Some
}

/// Whether `schema` compiles and `instance` meets it.
pub open spec fn schema_accepts(schema: JsonDoc, instance: JsonDoc) -> bool {
    validator_of(schema) matches Some(validator) && accepts(validator, instance)
}

/// `jsonschema::validator_for`: compiles `schema` with the default options.
/// On failure it hands back what `jsonschema` says of the schema; nothing
/// is claimed of those words.
#[verifier::external_body]
pub(crate) fn compile(schema: &Value) -> (compiled: Result<RequestValidator, String>)
    ensures
        match compiled {
            Ok(validator) => validator_of(json_of(*schema)) == Some(validator),
            Err(_) => validator_of(json_of(*schema)) is None,
        },
{
    match jsonschema::validator_for(schema) {
        Ok(inner) => Ok(RequestValidator { inner }),
        Err(error) => Err(error.to_string()),
    }
}

/// `jsonschema::Validator::validate`: `None` where `instance` meets the
/// schema, else the first thing found wrong with it, in words of which
/// nothing is claimed.
#[verifier::external_body]
pub(crate) fn violation(validator: &RequestValidator, instance: &Value) -> (found: Option<String>)
    ensures
        found is None <==> accepts(*validator, json_of(*instance)),
{
    match validator.inner.validate(instance) {
        Ok(()) => None,
        Err(error) => Some(error.to_string()),
    }
}

} // verus!

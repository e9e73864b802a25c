//! The relationship-store client of the fine-grained authorization
//! service: its request and response shapes, the endpoint URLs, and the
//! checks performed before a request is dispatched.

use crate::error::Error;
use vstd::prelude::*;

verus! {

/// Whether the JSON parser accepts `s` as a document. Named after the
/// outcome of the JSON library's parser; it depends on the string alone.
pub uninterp spec fn json_well_formed(s: Seq<char>) -> bool;

/// Relies on `serde_json::from_str::<serde_json::Value>`: whether a string
/// parses as a JSON document is deterministic in the string.
#[verifier::external_body]
fn json_parses(s: &String) -> (r: bool)
    ensures
        r == json_well_formed(s@),
{
    serde_json::from_str::<serde_json::Value>(s.as_str()).is_ok()
}

/// The body of a store-creation request.
pub struct CreateDataStoreSchema {
    pub name: String,
}

/// The store-creation response.
pub struct CreateDataStoreResponse {
    pub id: String,
    pub name: String,
    pub created_at: String,
    pub updated_at: String,
}

/// One relationship: a user, a relation, and an object.
#[derive(Debug, Clone, PartialEq)]
pub struct RelationshipTuple {
    pub user: String,
    pub relation: String,
    pub object: String,
}

/// A batch of relationship tuples.
pub struct TupleKeys {
    pub tuple_keys: Vec<RelationshipTuple>,
}

/// What a relationship write does: adds tuples, or removes them.
pub enum RelationshipAction {
    Writes(TupleKeys),
    Deletes(TupleKeys),
}

/// The body of a relationship-write request.
pub struct WriteRelationshipTupleSchema {
    pub authorization_model_id: String,
    pub relationship_action: RelationshipAction,
}

/// The (empty) relationship-write response.
#[derive(Debug, Clone, Copy, PartialEq, Eq, Structural)]
pub struct WriteRelationshipTupleResponse {}

/// The authorization-model write response.
pub struct WriteAuthorizationModelResponse {
    pub authorization_model_id: String,
}

/// The body of a relationship check.
pub struct CheckRequest {
    pub authorization_model_id: String,
    pub tuple_key: RelationshipTuple,
}

/// The answer to a relationship check.
#[derive(Debug, Clone, Copy, PartialEq, Eq, Structural)]
pub struct CheckResponse {
    pub allowed: bool,
}

/// A relationship tuple from its three parts.
pub fn make_tuple(user: &str, relation: &str, object: &str) -> (r: RelationshipTuple)
    ensures
        r.user@ == user@,
        r.relation@ == relation@,
        r.object@ == object@,
{
    RelationshipTuple {
        user: user.to_owned(),
        relation: relation.to_owned(),
        object: object.to_owned(),
    }
}

/// The store-creation endpoint under `base`.
pub fn stores_url(base: &String) -> (r: String)
    ensures
        r@ == base@ + "/stores"@,
{
    let mut url = String::new();
    url.append(base.as_str());
    url.append("/stores");
    assert(url@ =~= base@ + "/stores"@);
    url
}

/// The relationship-write endpoint of store `store_id` under `base`.
pub fn store_write_url(base: &String, store_id: &String) -> (r: String)
    ensures
        r@ == base@ + "/stores/"@ + store_id@ + "/write"@,
{
    let mut url = String::new();
    url.append(base.as_str());
    url.append("/stores/");
    url.append(store_id.as_str());
    url.append("/write");
    assert(url@ =~= base@ + "/stores/"@ + store_id@ + "/write"@);
    url
}

/// The authorization-model endpoint of store `store_id` under `base`.
pub fn store_model_url(base: &String, store_id: &String) -> (r: String)
    ensures
        r@ == base@ + "/stores/"@ + store_id@ + "/authorization-models"@,
{
    let mut url = String::new();
    url.append(base.as_str());
    url.append("/stores/");
    url.append(store_id.as_str());
    url.append("/authorization-models");
    assert(url@ =~= base@ + "/stores/"@ + store_id@ + "/authorization-models"@);
    url
}

/// The relationship-check endpoint of store `store_id` under `base`.
pub fn store_check_url(base: &String, store_id: &String) -> (r: String)
    ensures
        r@ == base@ + "/stores/"@ + store_id@ + "/check"@,
{
    let mut url = String::new();
    url.append(base.as_str());
    url.append("/stores/");
    url.append(store_id.as_str());
    url.append("/check");
    assert(url@ =~= base@ + "/stores/"@ + store_id@ + "/check"@);
    url
}

/// Validates a model document before it is written: a string the JSON
/// parser rejects is an internal error, exactly then.
pub fn validate_model_document(model: &String) -> (r: Result<(), Error>)
    ensures
        r is Ok <==> json_well_formed(model@),
        r is Err ==> r == Err::<(), Error>(Error::InternalServerError),
{
    if json_parses(model) {
        Ok(())
    } else {
        Err(Error::InternalServerError)
    }
}

/// The body of a relationship check for one tuple against a model.
pub fn make_check_request(model_id: &String, tuple: RelationshipTuple) -> (r: CheckRequest)
    ensures
        r.authorization_model_id@ == model_id@,
        r.tuple_key == tuple,
{
    CheckRequest { authorization_model_id: model_id.clone(), tuple_key: tuple }
}

/// Maps the outcome of writing the authorization model at startup: a
/// failure is reported as `NotFound`, as the initializer surfaces it.
pub fn map_model_write(outcome: Result<WriteAuthorizationModelResponse, Error>) -> (r: Result<
    WriteAuthorizationModelResponse,
    Error,
>)
    ensures
        match outcome {
            Ok(m) => r matches Ok(rm) && rm.authorization_model_id@ == m.authorization_model_id@,
            Err(_) => r == Err::<WriteAuthorizationModelResponse, Error>(Error::NotFound),
        },
{
    match outcome {
        Ok(model) => Ok(model),
        Err(_) => Err(Error::NotFound),
    }
}

} // verus!

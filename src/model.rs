//! The three shapes of a project record and the two response envelopes.
use vstd::prelude::*;

verus! {

/// A project as the document store holds it; `id` is assigned by the store.
#[derive(Debug, Clone)]
pub struct Project {
    pub id: Option<String>,
    pub name: String,
    pub description: String,
}

/// The payload of a create or update: a project without its identifier.
#[derive(Debug, Clone)]
pub struct ProjectRequest {
    pub name: String,
    pub description: String,
}

/// What the document store answers to a write: the document's identifier
/// and that of its collection.
#[derive(Debug, Clone)]
pub struct ProjectResponse {
    pub id: String,
    pub collection_id: String,
}

/// The body of an outbound write: an optional document identifier and the
/// record's fields.
#[allow(non_snake_case)]
#[derive(Debug, Clone)]
pub struct JsonAPIBody {
    pub documentId: Option<String>,
    pub data: ProjectRequest,
}

/// The success envelope: a status code, the message `"success"` and the payload.
#[derive(Debug, Clone)]
pub struct APIResponse<T> {
    pub status: u16,
    pub message: String,
    pub data: Option<T>,
}

/// The failure envelope: a status code, the message `"failure"` and a
/// description of the error.
#[derive(Debug, Clone)]
pub struct APIErrorResponse {
    pub status: u16,
    pub message: String,
    pub data: Option<String>,
}

} // verus!

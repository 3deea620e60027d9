//! Plans of the calls made to the document store: where they go, how they
//! authenticate and what they carry.
use vstd::prelude::*;

use crate::model::{JsonAPIBody, ProjectRequest};

verus! {

/// The error text of a setting that the environment does not provide.
pub open spec fn missing_setting() -> Seq<char> {
    "Error loading env variable"@
}

/// The endpoint of a collection's documents.
pub open spec fn collection_url(database_id: Seq<char>, collection_id: Seq<char>) -> Seq<char> {
    "https://cloud.appwrite.io/v1/databases/"@ + database_id + "/collections/"@ + collection_id
        + "/documents"@
}

/// The endpoint of one document.
pub open spec fn document_url(
    database_id: Seq<char>,
    collection_id: Seq<char>,
    document_id: Seq<char>,
) -> Seq<char> {
    collection_url(database_id, collection_id) + "/"@ + document_id
}

/// The text reported after a document was deleted.
pub open spec fn deleted_text(document_id: Seq<char>) -> Seq<char> {
    "Project with ID: $"@ + document_id + " deleted successfully!!"@
}

/// The HTTP method of an outbound call.
#[derive(Debug, Clone, Copy, PartialEq, Eq, Structural)]
pub enum Method {
    Post,
    Get,
    Patch,
    Delete,
}

/// One header line of an outbound call.
#[derive(Debug, Clone)]
pub struct Header {
    pub name: String,
    pub value: String,
}

/// A single outbound call to the document store, ready to be sent.
#[derive(Debug, Clone)]
pub struct OutboundRequest {
    pub method: Method,
    pub url: String,
    pub headers: Vec<Header>,
    pub body: Option<JsonAPIBody>,
}

/// The settings that address and authenticate the document store.
#[derive(Debug, Clone)]
pub struct AppwriteService {
    pub project_id: String,
    pub database_id: String,
    pub collection_id: String,
    pub api_key: String,
}

impl AppwriteService {
    /// The two authentication headers: the API key, then the project.
    pub open spec fn authenticates(&self, headers: Seq<Header>) -> bool {
        &&& headers.len() == 2
        &&& headers[0].name@ == "X-Appwrite-Key"@
        &&& headers[0].value@ == self.api_key@
        &&& headers[1].name@ == "X-Appwrite-Project"@
        &&& headers[1].value@ == self.project_id@
    }

    /// `r` creates a document holding `p`, with an identifier the store picks.
    pub open spec fn is_create_call(&self, r: OutboundRequest, p: ProjectRequest) -> bool {
        &&& r.method == Method::Post
        &&& r.url@ == collection_url(self.database_id@, self.collection_id@)
        &&& self.authenticates(r.headers@)
        &&& r.body is Some
        &&& r.body->Some_0.data == p
        &&& r.body->Some_0.documentId matches Some(d) && d@ == "unique()"@
    }

    /// `r` reads the document `id`.
    pub open spec fn is_read_call(&self, r: OutboundRequest, id: Seq<char>) -> bool {
        &&& r.method == Method::Get
        &&& r.url@ == document_url(self.database_id@, self.collection_id@, id)
        &&& self.authenticates(r.headers@)
        &&& r.body is None
    }

    /// `r` replaces the fields of the document `id` by those of `p`.
    pub open spec fn is_update_call(
        &self,
        r: OutboundRequest,
        p: ProjectRequest,
        id: Seq<char>,
    ) -> bool {
        &&& r.method == Method::Patch
        &&& r.url@ == document_url(self.database_id@, self.collection_id@, id)
        &&& self.authenticates(r.headers@)
        &&& r.body is Some
        &&& r.body->Some_0.data == p
        &&& r.body->Some_0.documentId is None
    }

    /// `r` deletes the document `id`.
    pub open spec fn is_delete_call(&self, r: OutboundRequest, id: Seq<char>) -> bool {
        &&& r.method == Method::Delete
        &&& r.url@ == document_url(self.database_id@, self.collection_id@, id)
        &&& self.authenticates(r.headers@)
        &&& r.body is None
    }

    /// One setting: what the environment provided, or an error where it
    /// provided nothing.
    pub fn env_loader(provided: Option<String>) -> (r: Result<String, String>)
        ensures
            match provided {
                Some(v) => r == Ok::<String, String>(v),
                None => r matches Err(e) && e@ == missing_setting(),
            },
    {
        match provided {
            Some(v) => Ok(v),
            None => Err(String::from_str("Error loading env variable")),
        }
    }

    /// The settings, from what the environment provided: an error unless all
    /// four are there.
    pub fn new(
        project_id: Option<String>,
        database_id: Option<String>,
        collection_id: Option<String>,
        api_key: Option<String>,
    ) -> (r: Result<AppwriteService, String>)
        ensures
            r is Ok <==> (project_id is Some && database_id is Some && collection_id is Some
                && api_key is Some),
            r matches Ok(s) ==> (s.project_id == project_id->Some_0 && s.database_id
                == database_id->Some_0 && s.collection_id == collection_id->Some_0 && s.api_key
                == api_key->Some_0),
            r matches Err(e) ==> e@ == missing_setting(),
    {
        let project_id = match AppwriteService::env_loader(project_id) {
            Ok(v) => v,
            Err(e) => return Err(e),
        };
        let database_id = match AppwriteService::env_loader(database_id) {
            Ok(v) => v,
            Err(e) => return Err(e),
        };
        let collection_id = match AppwriteService::env_loader(collection_id) {
            Ok(v) => v,
            Err(e) => return Err(e),
        };
        let api_key = match AppwriteService::env_loader(api_key) {
            Ok(v) => v,
            Err(e) => return Err(e),
        };
        Ok(AppwriteService { project_id, database_id, collection_id, api_key })
    }

    fn documents_url(&self) -> (r: String)
        ensures
            r@ == collection_url(self.database_id@, self.collection_id@),
    {
        let mut url = String::from_str("https://cloud.appwrite.io/v1/databases/");
        url.append(self.database_id.as_str());
        url.append("/collections/");
        url.append(self.collection_id.as_str());
        url.append("/documents");
        url
    }

    fn document_url(&self, document_id: &String) -> (r: String)
        ensures
            r@ == document_url(self.database_id@, self.collection_id@, document_id@),
    {
        let mut url = self.documents_url();
        url.append("/");
        url.append(document_id.as_str());
        url
    }

    fn auth_headers(&self) -> (r: Vec<Header>)
        ensures
            self.authenticates(r@),
    {
        let mut headers: Vec<Header> = Vec::new();
        headers.push(
            Header { name: String::from_str("X-Appwrite-Key"), value: self.api_key.clone() },
        );
        headers.push(
            Header {
                name: String::from_str("X-Appwrite-Project"),
                value: self.project_id.clone(),
            },
        );
        headers
    }

    /// The call that creates a document holding `new_project`.
    pub fn create_project(&self, new_project: ProjectRequest) -> (r: OutboundRequest)
        ensures
            self.is_create_call(r, new_project),
    {
        let body = JsonAPIBody {
            documentId: Some(String::from_str("unique()")),
            data: new_project,
        };
        OutboundRequest {
            method: Method::Post,
            url: self.documents_url(),
            headers: self.auth_headers(),
            body: Some(body),
        }
    }

    /// The call that reads the document `document_id`.
    pub fn get_project(&self, document_id: &String) -> (r: OutboundRequest)
        ensures
            self.is_read_call(r, document_id@),
    {
        OutboundRequest {
            method: Method::Get,
            url: self.document_url(document_id),
            headers: self.auth_headers(),
            body: None,
        }
    }

    /// The call that replaces the fields of the document `document_id`.
    pub fn update_project(&self, updated_project: ProjectRequest, document_id: &String) -> (r:
        OutboundRequest)
        ensures
            self.is_update_call(r, updated_project, document_id@),
    {
        let body = JsonAPIBody { documentId: None, data: updated_project };
        OutboundRequest {
            method: Method::Patch,
            url: self.document_url(document_id),
            headers: self.auth_headers(),
            body: Some(body),
        }
    }

    /// The call that deletes the document `document_id`.
    pub fn delete_project(&self, document_id: &String) -> (r: OutboundRequest)
        ensures
            self.is_delete_call(r, document_id@),
    {
        OutboundRequest {
            method: Method::Delete,
            url: self.document_url(document_id),
            headers: self.auth_headers(),
            body: None,
        }
    }

    /// The result of a delete once the call came back: the store's answer is
    /// not read, only whether the call went through.
    pub fn delete_result(document_id: &String, sent: Result<(), String>) -> (r: Result<
        String,
        String,
    >)
        ensures
            match sent {
                Ok(_) => r matches Ok(t) && t@ == deleted_text(document_id@),
                Err(e) => r == Err::<String, String>(e),
            },
    {
        match sent {
            Ok(_) => {
                let mut text = String::from_str("Project with ID: $");
                text.append(document_id.as_str());
                text.append(" deleted successfully!!");
                Ok(text)
            },
            Err(e) => Err(e),
        }
    }
}

} // verus!

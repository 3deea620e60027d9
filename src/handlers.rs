//! The four routes as decisions: check the path identifier, plan the call to
//! the document store, and wrap what came back in an envelope.
use vstd::prelude::*;

use crate::model::{APIErrorResponse, APIResponse, Project, ProjectRequest, ProjectResponse};
use crate::services::{AppwriteService, OutboundRequest};

verus! {

/// A read or an update went through.
pub const STATUS_OK: u16 = 200;

/// A document was created.
pub const STATUS_CREATED: u16 = 201;

/// A delete went through; also the HTTP status of every success.
pub const STATUS_ACCEPTED: u16 = 202;

/// The path identifier was empty.
pub const STATUS_BAD_REQUEST: u16 = 400;

/// The call to the document store failed.
pub const STATUS_INTERNAL_SERVER_ERROR: u16 = 500;

/// What a route answers: a success or a failure envelope.
#[derive(Debug, Clone)]
pub enum Reply<T> {
    Success(APIResponse<T>),
    Failure(APIErrorResponse),
}

/// The first move of a route: answer at once, or make one outbound call.
#[derive(Debug, Clone)]
pub enum Step<T> {
    Respond(Reply<T>),
    Call(OutboundRequest),
}

/// The four operations on a project.
#[derive(Debug, Clone, Copy, PartialEq, Eq, Structural)]
pub enum Operation {
    Create,
    Read,
    Update,
    Delete,
}

/// The status code that a success envelope of `op` carries.
pub open spec fn success_status(op: Operation) -> u16 {
    match op {
        Operation::Create => STATUS_CREATED,
        Operation::Read => STATUS_OK,
        Operation::Update => STATUS_OK,
        Operation::Delete => STATUS_ACCEPTED,
    }
}

/// `r` is the success envelope with `status`, the message "success" and `payload`.
pub open spec fn is_success<T>(r: Reply<T>, status: u16, payload: T) -> bool {
    &&& r is Success
    &&& r->Success_0.status == status
    &&& r->Success_0.message@ == "success"@
    &&& r->Success_0.data == Some(payload)
}

/// `r` is the failure envelope with `status`, the message "failure" and
/// the text `description`.
pub open spec fn is_failure<T>(r: Reply<T>, status: u16, description: Seq<char>) -> bool {
    &&& r is Failure
    &&& r->Failure_0.status == status
    &&& r->Failure_0.message@ == "failure"@
    &&& r->Failure_0.data matches Some(d) && d@ == description
}

/// `s` turns the request away as a client error, without any outbound call.
pub open spec fn is_rejected<T>(s: Step<T>) -> bool {
    s matches Step::Respond(r) && is_failure(r, STATUS_BAD_REQUEST, "invalid ID"@)
}

impl<T> Reply<T> {
    /// The HTTP status of the reply: 202 for every success, and the
    /// envelope's own status for a failure.
    pub fn http_status(&self) -> (r: u16)
        ensures
            r == match self {
                Reply::Success(_) => STATUS_ACCEPTED,
                Reply::Failure(e) => e.status,
            },
    {
        match self {
            Reply::Success(_) => STATUS_ACCEPTED,
            Reply::Failure(e) => e.status,
        }
    }
}

/// The failure envelope with `status` and the text `description`.
pub fn failure<T>(status: u16, description: String) -> (r: Reply<T>)
    ensures
        is_failure(r, status, description@),
{
    Reply::Failure(
        APIErrorResponse {
            status,
            message: String::from_str("failure"),
            data: Some(description),
        },
    )
}

/// The envelope for the outcome of the outbound call of `op`: a success with
/// the store's answer as payload, or a server error with the error's text.
pub fn reply<T>(op: Operation, outcome: Result<T, String>) -> (r: Reply<T>)
    ensures
        match outcome {
            Ok(v) => is_success(r, success_status(op), v),
            Err(e) => is_failure(r, STATUS_INTERNAL_SERVER_ERROR, e@),
        },
{
    match outcome {
        Ok(v) => {
            let status = match op {
                Operation::Create => STATUS_CREATED,
                Operation::Read => STATUS_OK,
                Operation::Update => STATUS_OK,
                Operation::Delete => STATUS_ACCEPTED,
            };
            Reply::Success(
                APIResponse { status, message: String::from_str("success"), data: Some(v) },
            )
        },
        Err(e) => failure(STATUS_INTERNAL_SERVER_ERROR, e),
    }
}

fn reject<T>() -> (r: Step<T>)
    ensures
        is_rejected(r),
{
    Step::Respond(failure(STATUS_BAD_REQUEST, String::from_str("invalid ID")))
}

/// The answer where the settings could not be loaded: a server error that
/// carries the loading error's text.
fn unconfigured<T>(e: &String) -> (r: Step<T>)
    ensures
        r matches Step::Respond(x) && is_failure(x, STATUS_INTERNAL_SERVER_ERROR, e@),
{
    Step::Respond(failure(STATUS_INTERNAL_SERVER_ERROR, e.clone()))
}

/// `POST /project`: without settings a server error, otherwise one call that
/// creates the document.
pub fn create_project(settings: &Result<AppwriteService, String>, data: ProjectRequest) -> (r:
    Step<ProjectResponse>)
    ensures
        settings matches Err(e) ==> (r matches Step::Respond(x) && is_failure(
            x,
            STATUS_INTERNAL_SERVER_ERROR,
            e@,
        )),
        settings matches Ok(s) ==> (r matches Step::Call(c) && s.is_create_call(c, data)),
{
    let service = match settings {
        Ok(s) => s,
        Err(e) => return unconfigured(e),
    };
    let new_project = ProjectRequest { name: data.name, description: data.description };
    Step::Call(service.create_project(new_project))
}

/// `GET /project/{id}`: an empty identifier is turned away; any other is a
/// server error without settings, and is read otherwise.
pub fn get_project(settings: &Result<AppwriteService, String>, id: String) -> (r: Step<Project>)
    ensures
        id@.len() == 0 <==> is_rejected(r),
        id@.len() > 0 ==> (settings matches Err(e) ==> (r matches Step::Respond(x) && is_failure(
            x,
            STATUS_INTERNAL_SERVER_ERROR,
            e@,
        ))),
        id@.len() > 0 ==> (settings matches Ok(s) ==> (r matches Step::Call(c) && s.is_read_call(
            c,
            id@,
        ))),
{
    if id.as_str().is_empty() {
        return reject();
    }
    match settings {
        Ok(service) => Step::Call(service.get_project(&id)),
        Err(e) => unconfigured(e),
    }
}

/// `PATCH /project/{id}`: an empty identifier is turned away; any other is a
/// server error without settings, and is updated with `updated_project`
/// otherwise.
pub fn update_project(
    settings: &Result<AppwriteService, String>,
    updated_project: ProjectRequest,
    id: String,
) -> (r: Step<ProjectResponse>)
    ensures
        id@.len() == 0 <==> is_rejected(r),
        id@.len() > 0 ==> (settings matches Err(e) ==> (r matches Step::Respond(x) && is_failure(
            x,
            STATUS_INTERNAL_SERVER_ERROR,
            e@,
        ))),
        id@.len() > 0 ==> (settings matches Ok(s) ==> (r matches Step::Call(c) && s.is_update_call(
            c,
            updated_project,
            id@,
        ))),
{
    if id.as_str().is_empty() {
        return reject();
    }
    let service = match settings {
        Ok(s) => s,
        Err(e) => return unconfigured(e),
    };
    let data = ProjectRequest {
        name: updated_project.name,
        description: updated_project.description,
    };
    Step::Call(service.update_project(data, &id))
}

/// `DELETE /project/{id}`: an empty identifier is turned away; any other is
/// a server error without settings, and is deleted otherwise.
pub fn delete_project(settings: &Result<AppwriteService, String>, id: String) -> (r: Step<String>)
    ensures
        id@.len() == 0 <==> is_rejected(r),
        id@.len() > 0 ==> (settings matches Err(e) ==> (r matches Step::Respond(x) && is_failure(
            x,
            STATUS_INTERNAL_SERVER_ERROR,
            e@,
        ))),
        id@.len() > 0 ==> (settings matches Ok(s) ==> (r matches Step::Call(c) && s.is_delete_call(
            c,
            id@,
        ))),
{
    if id.as_str().is_empty() {
        return reject();
    }
    match settings {
        Ok(service) => Step::Call(service.delete_project(&id)),
        Err(e) => unconfigured(e),
    }
}

} // verus!

use appwrite_projects::handlers::{
    create_project, delete_project, get_project, reply, update_project, Operation, Reply, Step,
};
use appwrite_projects::model::{Project, ProjectRequest, ProjectResponse};
use appwrite_projects::services::{AppwriteService, Method, OutboundRequest};

fn service() -> Result<AppwriteService, String> {
    AppwriteService::new(
        Some("proj".to_string()),
        Some("db1".to_string()),
        Some("col1".to_string()),
        Some("key1".to_string()),
    )
}

fn request(name: &str, description: &str) -> ProjectRequest {
    ProjectRequest { name: name.to_string(), description: description.to_string() }
}

fn expect_call<T>(s: Step<T>) -> OutboundRequest {
    match s {
        Step::Call(c) => c,
        Step::Respond(_) => panic!("expected an outbound call"),
    }
}

fn expect_invalid_id<T>(s: Step<T>) {
    match s {
        Step::Respond(r) => {
            assert_eq!(r.http_status(), 400);
            match r {
                Reply::Failure(e) => {
                    assert_eq!(e.status, 400);
                    assert_eq!(e.message, "failure");
                    assert_eq!(e.data, Some("invalid ID".to_string()));
                }
                Reply::Success(_) => panic!("expected a failure envelope"),
            }
        }
        Step::Call(_) => panic!("an empty identifier must not reach the store"),
    }
}

#[test]
fn get_with_empty_id_is_bad_request() {
    expect_invalid_id(get_project(&service(), String::new()));
}

#[test]
fn update_with_empty_id_is_bad_request() {
    expect_invalid_id(update_project(&service(), request("A", "B"), String::new()));
}

#[test]
fn delete_with_empty_id_is_bad_request() {
    expect_invalid_id(delete_project(&service(), String::new()));
}

#[test]
fn create_posts_then_wraps_store_answer() {
    let call = expect_call(create_project(&service(), request("A", "B")));
    assert_eq!(call.method, Method::Post);
    assert_eq!(call.url, "https://cloud.appwrite.io/v1/databases/db1/collections/col1/documents");
    let body = call.body.expect("a create carries a body");
    assert_eq!(body.documentId, Some("unique()".to_string()));
    assert_eq!(body.data.name, "A");
    assert_eq!(body.data.description, "B");

    let stored = ProjectResponse { id: "1".to_string(), collection_id: "c1".to_string() };
    let r = reply(Operation::Create, Ok(stored));
    assert_eq!(r.http_status(), 202);
    match r {
        Reply::Success(e) => {
            assert_eq!(e.status, 201);
            assert_eq!(e.message, "success");
            let data = e.data.expect("payload");
            assert_eq!(data.id, "1");
            assert_eq!(data.collection_id, "c1");
        }
        Reply::Failure(_) => panic!("expected a success envelope"),
    }
}

#[test]
fn read_answer_is_echoed() {
    let call = expect_call(get_project(&service(), "doc9".to_string()));
    assert_eq!(call.method, Method::Get);
    assert_eq!(call.url, "https://cloud.appwrite.io/v1/databases/db1/collections/col1/documents/doc9");
    assert!(call.body.is_none());

    let found = Project {
        id: Some("doc9".to_string()),
        name: "Alpha".to_string(),
        description: "first".to_string(),
    };
    match reply(Operation::Read, Ok(found)) {
        Reply::Success(e) => {
            assert_eq!(e.status, 200);
            assert_eq!(e.message, "success");
            let p = e.data.expect("payload");
            assert_eq!(p.id, Some("doc9".to_string()));
            assert_eq!(p.name, "Alpha");
            assert_eq!(p.description, "first");
        }
        Reply::Failure(_) => panic!("expected a success envelope"),
    }
}

#[test]
fn update_patches_document() {
    let call = expect_call(update_project(&service(), request("N", "D"), "doc2".to_string()));
    assert_eq!(call.method, Method::Patch);
    assert_eq!(call.url, "https://cloud.appwrite.io/v1/databases/db1/collections/col1/documents/doc2");
    let body = call.body.expect("an update carries a body");
    assert_eq!(body.documentId, None);
    assert_eq!(body.data.name, "N");
    assert_eq!(body.data.description, "D");
    let answer = ProjectResponse { id: "doc2".to_string(), collection_id: "col1".to_string() };
    match reply(Operation::Update, Ok(answer)) {
        Reply::Success(e) => assert_eq!(e.status, 200),
        Reply::Failure(_) => panic!("expected a success envelope"),
    }
}

#[test]
fn delete_sends_delete_and_reports_text() {
    let call = expect_call(delete_project(&service(), "doc3".to_string()));
    assert_eq!(call.method, Method::Delete);
    assert_eq!(call.url, "https://cloud.appwrite.io/v1/databases/db1/collections/col1/documents/doc3");
    assert!(call.body.is_none());
    let text = AppwriteService::delete_result(&"doc3".to_string(), Ok(()));
    assert_eq!(text, Ok("Project with ID: $doc3 deleted successfully!!".to_string()));
    match reply(Operation::Delete, text) {
        Reply::Success(e) => {
            assert_eq!(e.status, 202);
            assert_eq!(e.data, Some("Project with ID: $doc3 deleted successfully!!".to_string()));
        }
        Reply::Failure(_) => panic!("expected a success envelope"),
    }
}

#[test]
fn delete_failure_passes_error_on() {
    let r = AppwriteService::delete_result(&"doc3".to_string(), Err("timed out".to_string()));
    assert_eq!(r, Err("timed out".to_string()));
}

#[test]
fn failed_call_is_server_error() {
    for op in [Operation::Create, Operation::Read, Operation::Update, Operation::Delete] {
        let r = reply::<ProjectResponse>(op, Err("connection refused".to_string()));
        assert_eq!(r.http_status(), 500);
        match r {
            Reply::Failure(e) => {
                assert_eq!(e.status, 500);
                assert_eq!(e.message, "failure");
                assert_eq!(e.data, Some("connection refused".to_string()));
            }
            Reply::Success(_) => panic!("expected a failure envelope"),
        }
    }
}

#[test]
fn calls_carry_auth_headers() {
    let call = expect_call(get_project(&service(), "x".to_string()));
    assert_eq!(call.headers.len(), 2);
    assert_eq!(call.headers[0].name, "X-Appwrite-Key");
    assert_eq!(call.headers[0].value, "key1");
    assert_eq!(call.headers[1].name, "X-Appwrite-Project");
    assert_eq!(call.headers[1].value, "proj");
}

fn expect_server_error<T>(s: Step<T>) {
    match s {
        Step::Respond(r) => {
            assert_eq!(r.http_status(), 500);
            match r {
                Reply::Failure(e) => {
                    assert_eq!(e.status, 500);
                    assert_eq!(e.message, "failure");
                    assert_eq!(e.data, Some("Error loading env variable".to_string()));
                }
                Reply::Success(_) => panic!("expected a failure envelope"),
            }
        }
        Step::Call(_) => panic!("no call without settings"),
    }
}

#[test]
fn settings_need_all_four() {
    assert_eq!(AppwriteService::env_loader(Some("v".to_string())), Ok("v".to_string()));
    assert_eq!(
        AppwriteService::env_loader(None),
        Err("Error loading env variable".to_string())
    );
    let svc = service().expect("all four settings given");
    assert_eq!(svc.project_id, "proj");
    assert_eq!(svc.database_id, "db1");
    assert_eq!(svc.collection_id, "col1");
    assert_eq!(svc.api_key, "key1");
    let partial = AppwriteService::new(
        Some("proj".to_string()),
        Some("db1".to_string()),
        None,
        Some("key1".to_string()),
    );
    assert_eq!(partial.err(), Some("Error loading env variable".to_string()));
}

#[test]
fn missing_setting_is_server_error() {
    let settings = AppwriteService::new(None, Some("db".to_string()), None, None);
    expect_server_error(create_project(&settings, request("A", "B")));
    expect_server_error(get_project(&settings, "d".to_string()));
    expect_server_error(update_project(&settings, request("A", "B"), "d".to_string()));
    expect_server_error(delete_project(&settings, "d".to_string()));
}

#[test]
fn empty_id_is_checked_before_settings() {
    let settings = AppwriteService::new(None, None, None, None);
    expect_invalid_id(get_project(&settings, String::new()));
    expect_invalid_id(update_project(&settings, request("A", "B"), String::new()));
    expect_invalid_id(delete_project(&settings, String::new()));
}

use brigade_sdk::authn::SessionsClient;
use brigade_sdk::client::{Client, ClientConfig};
use brigade_sdk::events::{EventsClient, EventsSelector};
use brigade_sdk::meta::ListOptions;
use brigade_sdk::projects::ProjectsClient;
use brigade_sdk::rest::{Auth, HttpRequest, Method};
use brigade_sdk::worker::WorkerPhase;

fn client_with_token(path: &str) -> Client {
    Client::new(
        String::from("https://localhost:8080"),
        String::from(path),
        ClientConfig { allow_insecure_connections: true },
        Some(String::from("tok-123")),
    )
}

fn pairs(r: &HttpRequest) -> Vec<(String, String)> {
    r.query.clone()
}

#[test]
fn get_request_builds_item_url_with_bearer() {
    let cl = client_with_token("projects");
    let r = cl.get_request("hello-world");
    assert_eq!(r.method, Method::Get);
    assert_eq!(r.url, "https://localhost:8080/v2/projects/hello-world");
    assert_eq!(r.auth, Auth::Bearer(String::from("tok-123")));
    assert!(r.query.is_empty());
    assert!(r.body.is_none());
}

#[test]
fn delete_request_has_no_query_and_no_body() {
    let cl = client_with_token("projects");
    let r = cl.delete_request("x");
    assert_eq!(r.method, Method::Delete);
    assert_eq!(r.url, "https://localhost:8080/v2/projects/x");
    assert!(r.query.is_empty());
    assert!(r.body.is_none());
}

#[test]
fn delete_discards_body_without_decoding() {
    // A server answering HTTP 204 with an empty body: the delete flow never
    // attempts any JSON decoding, so it succeeds.
    let cl = client_with_token("projects");
    let res = cl.discard_response("");
    assert!(res.is_ok());
}

#[test]
fn list_without_options_has_no_pagination_parameters() {
    let cl = client_with_token("projects");
    let r = cl.list_req(None);
    assert_eq!(r.method, Method::Get);
    assert_eq!(r.url, "https://localhost:8080/v2/projects");
    assert!(pairs(&r).is_empty());
}

#[test]
fn list_with_limit_only_sends_limit_alone() {
    let cl = client_with_token("projects");
    let r = cl.list_req(Some(ListOptions { continue_id: None, limit: Some(10) }));
    assert_eq!(pairs(&r), vec![(String::from("limit"), String::from("10"))]);
}

#[test]
fn list_with_continuation_and_limit_sends_both() {
    let cl = client_with_token("projects");
    let r = cl.list_req(
        Some(ListOptions { continue_id: Some(String::from("abc")), limit: Some(3) }),
    );
    assert_eq!(
        pairs(&r),
        vec![
            (String::from("continue"), String::from("abc")),
            (String::from("limit"), String::from("3")),
        ]
    );
}

#[test]
fn anonymous_client_sends_no_credentials() {
    let cl = Client::new(
        String::from("https://localhost:8080"),
        String::from("projects"),
        ClientConfig::new(),
        None,
    );
    let r = cl.get_request("p");
    assert_eq!(r.auth, Auth::Anonymous);
}

#[test]
fn default_config_validates_certificates() {
    let cfg = ClientConfig::new();
    assert!(!cfg.allow_insecure_connections);
}

#[test]
fn insecure_config_is_carried_on_the_client() {
    let cfg = ClientConfig { allow_insecure_connections: true };
    let sc = SessionsClient::new(String::from("https://localhost:8080"), cfg, None);
    assert!(sc.client.config.allow_insecure_connections);
}

#[test]
fn root_session_request_uses_basic_auth_and_root_query() {
    let cfg = ClientConfig { allow_insecure_connections: true };
    let sc = SessionsClient::new(String::from("https://localhost:8080"), cfg, None);
    let r = sc.create_root_session_request(String::from("secret"));
    assert_eq!(r.method, Method::Post);
    assert_eq!(r.url, "https://localhost:8080/v2/sessions");
    assert_eq!(r.query, vec![(String::from("root"), String::from("true"))]);
    assert_eq!(r.auth, Auth::Basic(String::from("root"), String::from("secret")));
    assert!(r.body.is_none());
}

#[test]
fn root_session_response_returns_server_token_value() {
    let cfg = ClientConfig { allow_insecure_connections: true };
    let sc = SessionsClient::new(String::from("https://localhost:8080"), cfg, None);
    let body = "{\"kind\":\"Token\",\"apiVersion\":\"brigade.sh/v2\",\"value\":\"opaque-token\"}";
    let token = sc.create_root_session_response(body).unwrap();
    assert_eq!(token.value, "opaque-token");
}

#[test]
fn events_cancel_request_puts_to_cancellation_url() {
    let ec = EventsClient::new(
        String::from("https://localhost:8080"),
        ClientConfig { allow_insecure_connections: true },
        Some(String::from("tok-123")),
    );
    let r = ec.cancel_request("7cf24d38-f2b2-4d0f-9aac-c0a07c01c78c");
    assert_eq!(r.method, Method::Put);
    assert_eq!(
        r.url,
        "https://localhost:8080/v2/events/7cf24d38-f2b2-4d0f-9aac-c0a07c01c78c/cancellation"
    );
    assert!(r.body.is_none());
}

#[test]
fn events_list_with_project_selector_adds_project_id() {
    let ec = EventsClient::new(
        String::from("https://localhost:8080"),
        ClientConfig { allow_insecure_connections: true },
        Some(String::from("tok-123")),
    );
    let sel = EventsSelector { project_id: Some(String::from("hello-world")), worker_phases: None };
    let r = ec.list(Some(sel), None);
    assert_eq!(r.query, vec![(String::from("projectID"), String::from("hello-world"))]);
}

#[test]
fn events_list_with_phase_selector_joins_phases() {
    let ec = EventsClient::new(
        String::from("https://localhost:8080"),
        ClientConfig { allow_insecure_connections: true },
        Some(String::from("tok-123")),
    );
    let sel = EventsSelector {
        project_id: None,
        worker_phases: Some(vec![WorkerPhase::Succeeded, WorkerPhase::Failed]),
    };
    let r = ec.list(Some(sel), None);
    assert_eq!(
        r.query,
        vec![(String::from("workerPhases"), String::from("SUCCEEDED,FAILED"))]
    );
}

#[test]
fn events_list_keeps_pagination_before_selector() {
    let ec = EventsClient::new(
        String::from("https://localhost:8080"),
        ClientConfig { allow_insecure_connections: true },
        Some(String::from("tok-123")),
    );
    let sel = EventsSelector { project_id: Some(String::from("p1")), worker_phases: None };
    let opts = ListOptions { continue_id: None, limit: Some(5) };
    let r = ec.list(Some(sel), Some(opts));
    assert_eq!(
        r.query,
        vec![
            (String::from("limit"), String::from("5")),
            (String::from("projectID"), String::from("p1")),
        ]
    );
}

#[test]
fn test_vec() {
    let v = vec![WorkerPhase::Succeeded];
    let str = WorkerPhase::vec_to_query_param(v);
    println!("{}", &str);
    assert_eq!(str, "SUCCEEDED");
}

#[test]
fn projects_client_paths_are_bound_once() {
    let pc = ProjectsClient::new(
        String::from("https://localhost:8080"),
        ClientConfig::new(),
        Some(String::from("t")),
    );
    let r = pc.get_request("hello-rust-sdk");
    assert_eq!(r.url, "https://localhost:8080/v2/projects/hello-rust-sdk");
}

#[test]
fn generic_list_decode_reads_an_envelope() {
    let cl = client_with_token("projects");
    let body = "{\"metadata\":{\"continue\":\"c2\"},\"items\":[]}";
    let l = cl
        .decode_list_response::<brigade_sdk::projects::Project>(body)
        .unwrap();
    assert_eq!(l.metadata.continue_id, Some(String::from("c2")));
}

use brigade_sdk::client::{decode_body, encode_body};
use brigade_sdk::events::{
    CancelManyEventsResult, DeleteManyEventsResult, Event, EventSubscription, EventsClient,
    GitDetails,
};
use brigade_sdk::job::{Job, JobContainerSpec, JobPhase, JobSpec, JobStatus};
use brigade_sdk::meta::{APIVersion, Kind, List, TypeMeta};
use brigade_sdk::projects::{Project, ProjectsClient};
use brigade_sdk::rest::{ClientConfig, Method};
use brigade_sdk::worker::{LogLevel, Worker, WorkerPhase, WorkerSpec, WorkerStatus};

fn projects_client() -> ProjectsClient {
    ProjectsClient::new(
        String::from("https://localhost:8080"),
        ClientConfig { allow_insecure_connections: true },
        Some(String::from("tok-123")),
    )
}

fn sample_event() -> Event {
    Event::new(
        String::from("hello-world"),
        String::from("rust-sdk"),
        String::from("rust-sdk-test"),
    )
}

#[test]
fn create_project_stamps_the_outbound_payload_only() {
    let pc = projects_client();
    let mut project = Project::new(
        String::from("hello-rust-sdk"),
        String::from("A project created from the Brigade Rust SDK"),
        String::from("console.log(\"Hello, World!\")"),
    );
    project.metadata.created = Some(String::from("2020-05-01T00:00:00Z"));
    let before = project.clone();

    let r = pc.create_request(&project);
    assert_eq!(r.method, Method::Post);
    assert_eq!(r.url, "https://localhost:8080/v2/projects");

    // The caller's value is untouched...
    assert_eq!(project, before);

    // ...while the transmitted payload carries the stamp and has the
    // server-managed fields cleared.
    let sent: Project = decode_body(r.body.as_deref().unwrap()).unwrap();
    assert_eq!(
        sent.type_meta,
        Some(TypeMeta { kind: Kind::Project, api_version: APIVersion::V2 })
    );
    assert!(sent.metadata.created.is_none());
    assert!(sent.kubernetes.is_none());
    assert_eq!(sent.description, project.description);
    assert_eq!(sent.spec, project.spec);
    assert_eq!(sent.metadata.id, project.metadata.id);
}

#[test]
fn update_then_get_returns_the_sent_fields() {
    let pc = projects_client();
    let mut project = Project::new(
        String::from("hello-rust-sdk"),
        String::from("first description"),
        String::from("console.log(\"Hello, World!\")"),
    );
    project.description = Some(String::from("totally new descrption"));

    let r = pc.update_request(&project);
    assert_eq!(r.method, Method::Put);
    assert_eq!(r.url, "https://localhost:8080/v2/projects/hello-rust-sdk");

    // If the server stores the body verbatim, a later get decodes a value
    // equal to the sent one in every caller-owned field.
    let body = r.body.unwrap();
    let fetched = pc.decode_project(&body).unwrap();
    assert_eq!(fetched.description, project.description);
    assert_eq!(fetched.spec, project.spec);
    assert_eq!(fetched.metadata.id, project.metadata.id);
}

#[test]
fn create_event_stamps_the_type_tag() {
    let ec = EventsClient::new(
        String::from("https://localhost:8080"),
        ClientConfig { allow_insecure_connections: true },
        Some(String::from("tok-123")),
    );
    let ev = sample_event();
    let before = ev.clone();
    let r = ec.create_request(&ev);
    assert_eq!(ev, before);
    let sent: Event = decode_body(r.body.as_deref().unwrap()).unwrap();
    assert_eq!(sent.type_meta, Some(TypeMeta { kind: Kind::Event, api_version: APIVersion::V2 }));
    assert_eq!(sent.project_id, "hello-world");
    assert_eq!(sent.source, "rust-sdk");
    assert_eq!(sent.event_type, "rust-sdk-test");
}

#[test]
fn event_round_trips_with_labels_and_git() {
    let mut ev = sample_event();
    ev.labels = Some(vec![(String::from("env"), String::from("dev"))]);
    ev.git = Some(GitDetails {
        clone_url: Some(String::from("https://example.test/repo.git")),
        commit: None,
        reference: Some(String::from("refs/heads/main")),
    });
    ev.payload = Some(String::from("{\"nested\":true}"));
    let body = encode_body(&ev);
    let back: Event = decode_body(&body).unwrap();
    assert_eq!(back, ev);
}

#[test]
fn event_wire_names_follow_the_api() {
    let ev = sample_event();
    let body = encode_body(&ev);
    assert_eq!(
        body,
        "{\"projectID\":\"hello-world\",\"source\":\"rust-sdk\",\"type\":\"rust-sdk-test\"}"
    );
}

#[test]
fn event_list_envelope_decodes() {
    let body = "{\"metadata\":{},\"items\":[{\"projectID\":\"p\",\"source\":\"s\",\"type\":\"t\"}]}";
    let l: List<Event> = decode_body(body).unwrap();
    let items = l.items.unwrap();
    assert_eq!(items.len(), 1);
    assert_eq!(items[0].project_id, "p");
}

#[test]
fn worker_and_jobs_round_trip() {
    let status = WorkerStatus {
        started: Some(String::from("2021-06-01T12:00:00Z")),
        ended: None,
        phase: Some(WorkerPhase::Running),
    };
    let mut spec = WorkerSpec::new(String::from("x"));
    spec.log_level = Some(LogLevel::Debug);
    let job = Job {
        spec: JobSpec {
            primary_container: JobContainerSpec {
                container_spec: decode_body("{\"image\":\"alpine:3\"}").unwrap(),
                working_directory: Some(String::from("/src")),
                workspace_mount_path: None,
                source_mount_path: None,
                privileged: Some(false),
                use_host_docker_socket: None,
            },
            sidecar_containers: None,
            timeout_seconds: Some(600),
            host: None,
        },
        status: Some(JobStatus { started: None, ended: None, phase: Some(JobPhase::Pending) }),
    };
    let w = Worker { spec, status, jobs: Some(vec![(String::from("build"), job)]) };
    let body = encode_body(&w);
    let back: Worker = decode_body(&body).unwrap();
    assert_eq!(back, w);
}

#[test]
fn phases_and_levels_use_wire_names() {
    assert_eq!(encode_body(&WorkerPhase::SchedulingFailed), "\"SCHEDULING_FAILED\"");
    assert_eq!(encode_body(&JobPhase::TimedOut), "\"TIMED_OUT\"");
    assert_eq!(encode_body(&LogLevel::Warn), "\"WARN\"");
    let p: WorkerPhase = decode_body("\"CANCELED\"").unwrap();
    assert_eq!(p, WorkerPhase::Canceled);
    let bad: Result<WorkerPhase, _> = decode_body("\"canceled\"");
    assert!(bad.is_err());
}

#[test]
fn event_subscription_requires_all_fields() {
    let ok: EventSubscription = decode_body(
        "{\"source\":\"github\",\"types\":[\"push\"],\"labels\":{\"env\":\"dev\"}}",
    )
    .unwrap();
    assert_eq!(ok.types, vec![String::from("push")]);
    assert_eq!(ok.labels, vec![(String::from("env"), String::from("dev"))]);
    let missing: Result<EventSubscription, _> = decode_body("{\"source\":\"github\"}");
    assert!(missing.is_err());
}

#[test]
fn bulk_result_counts_decode() {
    let c: CancelManyEventsResult = decode_body("{\"count\":12}").unwrap();
    assert_eq!(c.count, 12);
    let d: DeleteManyEventsResult = decode_body("{\"count\":-1}").unwrap();
    assert_eq!(d.count, -1);
}

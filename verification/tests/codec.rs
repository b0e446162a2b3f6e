use brigade_sdk::client::{decode_body, encode_body};
use brigade_sdk::meta::{APIVersion, Kind, List, ListMeta, ObjectMeta, TypeMeta};
use brigade_sdk::projects::{KubernetesDetails, Project, ProjectSpec};
use brigade_sdk::worker::WorkerSpec;

fn sample_project() -> Project {
    Project::new(
        String::from("hello-rust-sdk"),
        String::from("A project created from the Brigade Rust SDK"),
        String::from("\n        console.log(\"Hello, World!\")\n    "),
    )
}

#[test]
fn test_type_meta_serialization() {
    let tm = TypeMeta { api_version: APIVersion::V2, kind: Kind::Token };

    let str = encode_body(&tm);
    let tmu: TypeMeta = decode_body(&str).unwrap();
    assert_eq!(tmu.kind, Kind::Token);
    assert_eq!(tmu.api_version, APIVersion::V2);
}

#[test]
fn type_meta_wire_form_is_flat_and_exact() {
    let tm = TypeMeta { kind: Kind::Project, api_version: APIVersion::V2 };
    assert_eq!(
        encode_body(&tm),
        "{\"kind\":\"Project\",\"apiVersion\":\"brigade.sh/v2\"}"
    );
}

#[test]
fn project_round_trips_through_wire_text() {
    let p = sample_project();
    let body = encode_body(&p);
    let q: Project = decode_body(&body).unwrap();
    assert_eq!(q, p);
}

#[test]
fn absent_optional_fields_stay_absent_after_round_trip() {
    let p = sample_project();
    let body = encode_body(&p);
    // The fresh project has no description-level extras: none of the
    // omitted-when-absent members may appear in the text.
    assert!(!body.contains("\"created\":"));
    assert!(!body.contains("\"kubernetes\":"));
    assert!(!body.contains("\"eventSubscriptions\":"));
    let q: Project = decode_body(&body).unwrap();
    assert!(q.metadata.created.is_none());
    assert!(q.kubernetes.is_none());
    assert!(q.spec.event_subscriptions.is_none());
}

#[test]
fn encoded_project_is_valid_json_for_other_parsers() {
    let p = sample_project();
    let body = encode_body(&p);
    let v: serde_json::Value = serde_json::from_str(&body).unwrap();
    assert_eq!(v["metadata"]["id"], serde_json::Value::String(String::from("hello-rust-sdk")));
}

#[test]
fn decode_accepts_reordered_and_unknown_members() {
    let body = "{\"unknown\":[1,2,{\"x\":null}],\"spec\":{\"workerTemplate\":{}},\"metadata\":{\"id\":\"p1\",\"created\":\"2021-01-01T00:00:00Z\"}}";
    let p: Project = decode_body(body).unwrap();
    assert_eq!(p.metadata.id, "p1");
    assert_eq!(p.metadata.created, Some(String::from("2021-01-01T00:00:00Z")));
    assert!(p.type_meta.is_none());
}

#[test]
fn decode_accepts_whitespace_and_null_optionals() {
    let body = " {\n  \"metadata\" : { \"id\" : \"p2\" , \"created\" : null } ,\n  \"description\" : null ,\n  \"spec\" : { \"workerTemplate\" : { } }\n } ";
    let p: Project = decode_body(body).unwrap();
    assert_eq!(p.metadata.id, "p2");
    assert!(p.metadata.created.is_none());
    assert!(p.description.is_none());
}

#[test]
fn decode_unescapes_strings() {
    let body = "{\"metadata\":{\"id\":\"a\\u0041b\\n\\\"q\\\"\\\\\"},\"spec\":{\"workerTemplate\":{}}}";
    let p: Project = decode_body(body).unwrap();
    assert_eq!(p.metadata.id, "aAb\n\"q\"\\");
}

#[test]
fn encode_escapes_quotes_backslashes_and_controls() {
    let md = ObjectMeta { id: String::from("a\"b\\c\nd"), created: None };
    let body = encode_body(&md);
    assert_eq!(body, "{\"id\":\"a\\\"b\\\\c\\u000ad\"}");
    let back: ObjectMeta = decode_body(&body).unwrap();
    assert_eq!(back.id, "a\"b\\c\nd");
}

#[test]
fn error_body_surfaces_a_decode_failure_not_a_zero_value() {
    // A 404 answered with a JSON error body must fail to decode as a
    // Project rather than silently produce one.
    let res: Result<Project, _> = decode_body("{\"error\":\"not found\"}");
    assert!(res.is_err());
}

#[test]
fn invalid_json_fails_to_decode() {
    let res: Result<Project, _> = decode_body("{\"metadata\":{\"id\":");
    assert!(res.is_err());
    let res2: Result<Project, _> = decode_body("");
    assert!(res2.is_err());
}

#[test]
fn list_envelope_round_trips_with_and_without_items() {
    let empty = List::<Project> {
        metadata: ListMeta { continue_id: None, remaining_item_count: None },
        items: None,
    };
    let body = encode_body(&empty);
    assert_eq!(body, "{\"metadata\":{}}");
    let back: List<Project> = decode_body(&body).unwrap();
    assert!(back.items.is_none());

    let one = List::<Project> {
        metadata: ListMeta { continue_id: Some(String::from("next")), remaining_item_count: Some(7) },
        items: Some(vec![sample_project()]),
    };
    let body2 = encode_body(&one);
    let back2: List<Project> = decode_body(&body2).unwrap();
    assert_eq!(back2.metadata.continue_id, Some(String::from("next")));
    assert_eq!(back2.metadata.remaining_item_count, Some(7));
    assert_eq!(back2.items.unwrap(), vec![sample_project()]);
}

#[test]
fn list_metadata_continuation_feeds_next_page() {
    let body = "{\"metadata\":{\"continue\":\"cursor-1\",\"remainingItemCount\":41},\"items\":[]}";
    let l: List<Project> = decode_body(body).unwrap();
    assert_eq!(l.metadata.continue_id, Some(String::from("cursor-1")));
    assert_eq!(l.metadata.remaining_item_count, Some(41));
    assert_eq!(l.items.unwrap().len(), 0);
}

#[test]
fn numbers_are_decoded_exactly_and_bounds_are_enforced() {
    let l: List<Project> = decode_body(
        "{\"metadata\":{\"remainingItemCount\":-9223372036854775808}}",
    )
    .unwrap();
    assert_eq!(l.metadata.remaining_item_count, Some(i64::MIN));
    let too_big: Result<List<Project>, _> = decode_body(
        "{\"metadata\":{\"remainingItemCount\":9223372036854775808}}",
    );
    assert!(too_big.is_err());
    let fraction: Result<List<Project>, _> = decode_body(
        "{\"metadata\":{\"remainingItemCount\":1.5}}",
    );
    assert!(fraction.is_err());
}

#[test]
fn worker_spec_new_carries_the_script() {
    let ws = WorkerSpec::new(String::from("console.log(\"hi\")"));
    let files = ws.default_config_files.clone().unwrap();
    assert_eq!(files, vec![(String::from("brigade.js"), String::from("console.log(\"hi\")"))]);
    let body = encode_body(&ws);
    let back: WorkerSpec = decode_body(&body).unwrap();
    assert_eq!(back, ws);
}

#[test]
fn kubernetes_details_round_trip() {
    let kd = KubernetesDetails { namespace: Some(String::from("ns-7")) };
    let body = encode_body(&kd);
    assert_eq!(body, "{\"namespace\":\"ns-7\"}");
    let back: KubernetesDetails = decode_body(&body).unwrap();
    assert_eq!(back, kd);
}

#[test]
fn project_spec_requires_worker_template() {
    let res: Result<ProjectSpec, _> = decode_body("{}");
    assert!(res.is_err());
    let ok: ProjectSpec = decode_body("{\"workerTemplate\":{}}").unwrap();
    assert!(ok.event_subscriptions.is_none());
}

#[test]
fn non_ascii_characters_round_trip_unescaped() {
    let md = ObjectMeta { id: String::from("projet-\u{e9}t\u{e9}-\u{1f680}"), created: None };
    let body = encode_body(&md);
    let back: ObjectMeta = decode_body(&body).unwrap();
    assert_eq!(back, md);
}

#[test]
fn escaped_surrogates_are_refused() {
    let res: Result<ObjectMeta, _> = decode_body("{\"id\":\"a\\uD800b\"}");
    assert!(res.is_err());
}

#[test]
fn decode_reads_escaped_bmp_code_points() {
    let o: ObjectMeta = decode_body("{\"id\":\"gr\\u00FCn \\u20AC\"}").unwrap();
    assert_eq!(o.id, "gr\u{fc}n \u{20ac}");
}

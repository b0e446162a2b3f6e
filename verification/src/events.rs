//! Events: what the platform reacts to, and their typed client with the
//! one non-CRUD cancellation operation.

use vstd::prelude::*;

use crate::client::{collection_url, decode_body, decoded, item_url, Client};
use crate::error::BrigadeError;
use crate::json::{json_to_chars, Json, JsonV};
use crate::meta::{
    get_tm, lemma_lookup_tm_fields, push_tm, tm_fields, tm_of, APIVersion, Kind, List,
    ListOptions, ListOptionsV, ObjectMeta, ObjectMetaV, TypeMeta,
};
use crate::payload::{
    get_i64, get_opt_payload, get_opt_str, get_opt_strmap, get_req_arr, get_req_strmap, get_str,
    group_lookup_rules, jv_i64, jv_opt_payload, jv_opt_str, jv_opt_strmap,
    jv_req_arr, jv_req_strmap, jv_str, lemma_jv_lookup_append, lemma_seq_round_trip,
    lemma_strmap_round_trip, opt_payload_field, opt_str_field, opt_strmap_field,
    push_opt_payload_field, push_opt_str_field, push_opt_strmap_field, push_field,
    push_str_field, sfield, Payload,
};
use crate::rest::{bearer_of, pagination_params, HttpRequest, Method};
use crate::text::string_from_chars;
use crate::worker::{phases_query, Worker, WorkerPhase};

pub use crate::client::ClientConfig;

verus! {

/// One subscription of a project: the source, types and labels of the
/// events it wants.
#[derive(Debug, Clone, PartialEq)]
pub struct EventSubscription {
    pub source: String,
    pub types: Vec<String>,
    pub labels: Vec<(String, String)>,
}

/// The mathematical model of an [`EventSubscription`].
pub struct EventSubscriptionV {
    pub source: Seq<char>,
    pub types: Seq<Seq<char>>,
    pub labels: Seq<(Seq<char>, Seq<char>)>,
}

impl View for EventSubscription {
    type V = EventSubscriptionV;

    open spec fn view(&self) -> EventSubscriptionV {
        EventSubscriptionV {
            source: self.source@,
            types: self.types.deep_view(),
            labels: self.labels.deep_view(),
        }
    }
}

impl DeepView for EventSubscription {
    type V = EventSubscriptionV;

    open spec fn deep_view(&self) -> EventSubscriptionV {
        self.view()
    }
}

impl Payload for EventSubscription {
    open spec fn to_jv(v: EventSubscriptionV) -> JsonV {
        JsonV::Obj(
            sfield("source"@, JsonV::Str(v.source)) + sfield(
                "types"@,
                JsonV::Arr(crate::payload::to_jv_seq::<String>(v.types)),
            ) + sfield("labels"@, JsonV::Obj(crate::payload::strmap_jv(v.labels))),
        )
    }

    open spec fn of_jv(j: JsonV) -> Option<EventSubscriptionV> {
        match j {
            JsonV::Obj(m) => match (
                jv_str(m, "source"@),
                jv_req_arr::<String>(m, "types"@),
                jv_req_strmap(m, "labels"@),
            ) {
                (Some(source), Some(types), Some(labels)) => Some(
                    EventSubscriptionV { source, types, labels },
                ),
                _ => None,
            },
            _ => None,
        }
    }

    fn to_json(&self) -> (r: Json) {
        let mut out: Vec<(String, Json)> = Vec::new();
        push_str_field(&mut out, "source", &self.source);
        push_field(&mut out, "types", crate::payload::seq_to_json::<String>(&self.types));
        push_field(&mut out, "labels", crate::payload::strmap_to_json(&self.labels));
        proof {
            crate::json::lemma_json_v_obj(out);
            assert(crate::json::obj_v(Seq::<(String, Json)>::empty()) + sfield(
                "source"@,
                JsonV::Str(self.source@),
            ) + sfield("types"@, JsonV::Arr(crate::payload::to_jv_seq::<String>(self.types.deep_view())))
                + sfield("labels"@, JsonV::Obj(crate::payload::strmap_jv(self.labels.deep_view())))
                =~= sfield("source"@, JsonV::Str(self.source@)) + sfield(
                "types"@,
                JsonV::Arr(crate::payload::to_jv_seq::<String>(self.types.deep_view())),
            ) + sfield("labels"@, JsonV::Obj(crate::payload::strmap_jv(self.labels.deep_view()))));
        }
        Json::Obj(out)
    }

    fn from_json(j: &Json) -> (r: Option<Self>) {
        match j {
            Json::Obj(fields) => {
                proof {
                    assert(*j == Json::Obj(*fields));
                    crate::json::lemma_json_v_obj(*fields);
                }
                match (
                    get_str(fields, "source"),
                    get_req_arr::<String>(fields, "types"),
                    get_req_strmap(fields, "labels"),
                ) {
                    (Option::Some(source), Option::Some(types), Option::Some(labels)) => Some(
                        EventSubscription { source, types, labels },
                    ),
                    _ => None,
                }
            },
            _ => None,
        }
    }

    proof fn lemma_round_trip(v: EventSubscriptionV) {
        broadcast use group_lookup_rules;

        reveal_strlit("source");
        reveal_strlit("types");
        reveal_strlit("labels");
        assert("source"@.len() == 6);
        assert("types"@.len() == 5);
        assert("labels"@.len() == 6);
        assert("labels"@[0] != "source"@[0]);
        let m = sfield("source"@, JsonV::Str(v.source)) + sfield(
            "types"@,
            JsonV::Arr(crate::payload::to_jv_seq::<String>(v.types)),
        ) + sfield("labels"@, JsonV::Obj(crate::payload::strmap_jv(v.labels)));
        assert(Self::to_jv(v) == JsonV::Obj(m));
        assert(jv_str(m, "source"@) == Some(v.source));
        lemma_seq_round_trip::<String>(v.types);
        assert(jv_req_arr::<String>(m, "types"@) == Some(v.types));
        lemma_strmap_round_trip(v.labels);
        assert(jv_req_strmap(m, "labels"@) == Some(v.labels));
    }
}

/// Which events a listing asks for: by project and by worker phase.
#[derive(Debug, Clone, PartialEq)]
pub struct EventsSelector {
    pub project_id: Option<String>,
    pub worker_phases: Option<Vec<WorkerPhase>>,
}

/// The mathematical model of an [`EventsSelector`].
pub struct EventsSelectorV {
    pub project_id: Option<Seq<char>>,
    pub worker_phases: Option<Seq<WorkerPhase>>,
}

impl View for EventsSelector {
    type V = EventsSelectorV;

    open spec fn view(&self) -> EventsSelectorV {
        EventsSelectorV {
            project_id: self.project_id.deep_view(),
            worker_phases: self.worker_phases.deep_view(),
        }
    }
}

impl DeepView for EventsSelector {
    type V = EventsSelectorV;

    open spec fn deep_view(&self) -> EventsSelectorV {
        self.view()
    }
}

/// The query parameters contributed by an optional selector: a `projectID`
/// parameter when a project filter is set, then a `workerPhases` parameter
/// holding the comma-joined phase names when a phase filter is set.
pub open spec fn selector_params(sel: Option<EventsSelectorV>) -> Seq<(Seq<char>, Seq<char>)> {
    match sel {
        None => Seq::empty(),
        Some(s) => (match s.project_id {
            Some(id) => seq![("projectID"@, id)],
            None => Seq::empty(),
        }) + (match s.worker_phases {
            Some(ps) => seq![("workerPhases"@, phases_query(ps, 0))],
            None => Seq::empty(),
        }),
    }
}

/// Where an event's source commit lives.
#[derive(Debug, Clone, PartialEq)]
pub struct GitDetails {
    pub clone_url: Option<String>,
    pub commit: Option<String>,
    pub reference: Option<String>,
}

/// The mathematical model of a [`GitDetails`].
pub struct GitDetailsV {
    pub clone_url: Option<Seq<char>>,
    pub commit: Option<Seq<char>>,
    pub reference: Option<Seq<char>>,
}

impl View for GitDetails {
    type V = GitDetailsV;

    open spec fn view(&self) -> GitDetailsV {
        GitDetailsV {
            clone_url: self.clone_url.deep_view(),
            commit: self.commit.deep_view(),
            reference: self.reference.deep_view(),
        }
    }
}

impl DeepView for GitDetails {
    type V = GitDetailsV;

    open spec fn deep_view(&self) -> GitDetailsV {
        self.view()
    }
}

impl Payload for GitDetails {
    open spec fn to_jv(v: GitDetailsV) -> JsonV {
        JsonV::Obj(
            opt_str_field("cloneURL"@, v.clone_url) + opt_str_field("commit"@, v.commit)
                + opt_str_field("ref"@, v.reference),
        )
    }

    open spec fn of_jv(j: JsonV) -> Option<GitDetailsV> {
        match j {
            JsonV::Obj(m) => match (
                jv_opt_str(m, "cloneURL"@),
                jv_opt_str(m, "commit"@),
                jv_opt_str(m, "ref"@),
            ) {
                (Some(clone_url), Some(commit), Some(reference)) => Some(
                    GitDetailsV { clone_url, commit, reference },
                ),
                _ => None,
            },
            _ => None,
        }
    }

    fn to_json(&self) -> (r: Json) {
        let mut out: Vec<(String, Json)> = Vec::new();
        push_opt_str_field(&mut out, "cloneURL", &self.clone_url);
        push_opt_str_field(&mut out, "commit", &self.commit);
        push_opt_str_field(&mut out, "ref", &self.reference);
        proof {
            crate::json::lemma_json_v_obj(out);
            assert(crate::json::obj_v(Seq::<(String, Json)>::empty()) + opt_str_field(
                "cloneURL"@,
                self.clone_url.deep_view(),
            ) + opt_str_field("commit"@, self.commit.deep_view()) + opt_str_field(
                "ref"@,
                self.reference.deep_view(),
            ) =~= opt_str_field("cloneURL"@, self.clone_url.deep_view()) + opt_str_field(
                "commit"@,
                self.commit.deep_view(),
            ) + opt_str_field("ref"@, self.reference.deep_view()));
        }
        Json::Obj(out)
    }

    fn from_json(j: &Json) -> (r: Option<Self>) {
        match j {
            Json::Obj(fields) => {
                proof {
                    assert(*j == Json::Obj(*fields));
                    crate::json::lemma_json_v_obj(*fields);
                }
                match (
                    get_opt_str(fields, "cloneURL"),
                    get_opt_str(fields, "commit"),
                    get_opt_str(fields, "ref"),
                ) {
                    (Option::Some(clone_url), Option::Some(commit), Option::Some(reference)) =>
                        Some(GitDetails { clone_url, commit, reference }),
                    _ => None,
                }
            },
            _ => None,
        }
    }

    proof fn lemma_round_trip(v: GitDetailsV) {
        broadcast use group_lookup_rules;

        reveal_strlit("cloneURL");
        reveal_strlit("commit");
        reveal_strlit("ref");
        assert("cloneURL"@.len() == 8);
        assert("commit"@.len() == 6);
        assert("ref"@.len() == 3);
        let m = opt_str_field("cloneURL"@, v.clone_url) + opt_str_field("commit"@, v.commit)
            + opt_str_field("ref"@, v.reference);
        assert(Self::to_jv(v) == JsonV::Obj(m));
        assert(jv_opt_str(m, "cloneURL"@) == Some(v.clone_url));
        assert(jv_opt_str(m, "commit"@) == Some(v.commit));
        assert(jv_opt_str(m, "ref"@) == Some(v.reference));
    }
}

/// How many events a bulk cancellation touched.
#[derive(Debug, Clone, PartialEq)]
pub struct CancelManyEventsResult {
    pub count: i64,
}

/// The mathematical model of a [`CancelManyEventsResult`].
pub struct CancelManyEventsResultV {
    pub count: i64,
}

impl View for CancelManyEventsResult {
    type V = CancelManyEventsResultV;

    open spec fn view(&self) -> CancelManyEventsResultV {
        CancelManyEventsResultV { count: self.count }
    }
}

impl DeepView for CancelManyEventsResult {
    type V = CancelManyEventsResultV;

    open spec fn deep_view(&self) -> CancelManyEventsResultV {
        self.view()
    }
}

impl Payload for CancelManyEventsResult {
    open spec fn to_jv(v: CancelManyEventsResultV) -> JsonV {
        JsonV::Obj(sfield("count"@, JsonV::Int(v.count)))
    }

    open spec fn of_jv(j: JsonV) -> Option<CancelManyEventsResultV> {
        match j {
            JsonV::Obj(m) => match jv_i64(m, "count"@) {
                Some(count) => Some(CancelManyEventsResultV { count }),
                _ => None,
            },
            _ => None,
        }
    }

    fn to_json(&self) -> (r: Json) {
        let mut out: Vec<(String, Json)> = Vec::new();
        push_field(&mut out, "count", Json::Int(self.count));
        proof {
            crate::json::lemma_json_v_obj(out);
            assert(crate::json::obj_v(Seq::<(String, Json)>::empty()) + sfield(
                "count"@,
                JsonV::Int(self.count),
            ) =~= sfield("count"@, JsonV::Int(self.count)));
        }
        Json::Obj(out)
    }

    fn from_json(j: &Json) -> (r: Option<Self>) {
        match j {
            Json::Obj(fields) => {
                proof {
                    assert(*j == Json::Obj(*fields));
                    crate::json::lemma_json_v_obj(*fields);
                }
                match get_i64(fields, "count") {
                    Option::Some(count) => Some(CancelManyEventsResult { count }),
                    _ => None,
                }
            },
            _ => None,
        }
    }

    proof fn lemma_round_trip(v: CancelManyEventsResultV) {
        broadcast use group_lookup_rules;

        reveal_strlit("count");
        let m = sfield("count"@, JsonV::Int(v.count));
        assert(Self::to_jv(v) == JsonV::Obj(m));
        assert(jv_i64(m, "count"@) == Some(v.count));
    }
}

/// How many events a bulk deletion touched.
#[derive(Debug, Clone, PartialEq)]
pub struct DeleteManyEventsResult {
    pub count: i64,
}

/// The mathematical model of a [`DeleteManyEventsResult`].
pub struct DeleteManyEventsResultV {
    pub count: i64,
}

impl View for DeleteManyEventsResult {
    type V = DeleteManyEventsResultV;

    open spec fn view(&self) -> DeleteManyEventsResultV {
        DeleteManyEventsResultV { count: self.count }
    }
}

impl DeepView for DeleteManyEventsResult {
    type V = DeleteManyEventsResultV;

    open spec fn deep_view(&self) -> DeleteManyEventsResultV {
        self.view()
    }
}

impl Payload for DeleteManyEventsResult {
    open spec fn to_jv(v: DeleteManyEventsResultV) -> JsonV {
        JsonV::Obj(sfield("count"@, JsonV::Int(v.count)))
    }

    open spec fn of_jv(j: JsonV) -> Option<DeleteManyEventsResultV> {
        match j {
            JsonV::Obj(m) => match jv_i64(m, "count"@) {
                Some(count) => Some(DeleteManyEventsResultV { count }),
                _ => None,
            },
            _ => None,
        }
    }

    fn to_json(&self) -> (r: Json) {
        let mut out: Vec<(String, Json)> = Vec::new();
        push_field(&mut out, "count", Json::Int(self.count));
        proof {
            crate::json::lemma_json_v_obj(out);
            assert(crate::json::obj_v(Seq::<(String, Json)>::empty()) + sfield(
                "count"@,
                JsonV::Int(self.count),
            ) =~= sfield("count"@, JsonV::Int(self.count)));
        }
        Json::Obj(out)
    }

    fn from_json(j: &Json) -> (r: Option<Self>) {
        match j {
            Json::Obj(fields) => {
                proof {
                    assert(*j == Json::Obj(*fields));
                    crate::json::lemma_json_v_obj(*fields);
                }
                match get_i64(fields, "count") {
                    Option::Some(count) => Some(DeleteManyEventsResult { count }),
                    _ => None,
                }
            },
            _ => None,
        }
    }

    proof fn lemma_round_trip(v: DeleteManyEventsResultV) {
        broadcast use group_lookup_rules;

        reveal_strlit("count");
        let m = sfield("count"@, JsonV::Int(v.count));
        assert(Self::to_jv(v) == JsonV::Obj(m));
        assert(jv_i64(m, "count"@) == Some(v.count));
    }
}

/// One event: where it came from, what it carries, and the worker handling
/// it.
#[derive(Debug, Clone, PartialEq)]
pub struct Event {
    pub metadata: Option<ObjectMeta>,
    pub type_meta: Option<TypeMeta>,
    pub project_id: String,
    pub source: String,
    pub event_type: String,
    pub labels: Option<Vec<(String, String)>>,
    pub short_title: Option<String>,
    pub long_title: Option<String>,
    pub git: Option<GitDetails>,
    pub payload: Option<String>,
    pub worker: Option<Worker>,
}

/// The mathematical model of an [`Event`].
pub struct EventV {
    pub metadata: Option<ObjectMetaV>,
    pub type_meta: Option<TypeMeta>,
    pub project_id: Seq<char>,
    pub source: Seq<char>,
    pub event_type: Seq<char>,
    pub labels: Option<Seq<(Seq<char>, Seq<char>)>>,
    pub short_title: Option<Seq<char>>,
    pub long_title: Option<Seq<char>>,
    pub git: Option<GitDetailsV>,
    pub payload: Option<Seq<char>>,
    pub worker: Option<crate::worker::WorkerV>,
}

impl View for Event {
    type V = EventV;

    open spec fn view(&self) -> EventV {
        EventV {
            metadata: self.metadata.deep_view(),
            type_meta: self.type_meta,
            project_id: self.project_id@,
            source: self.source@,
            event_type: self.event_type@,
            labels: self.labels.deep_view(),
            short_title: self.short_title.deep_view(),
            long_title: self.long_title.deep_view(),
            git: self.git.deep_view(),
            payload: self.payload.deep_view(),
            worker: self.worker.deep_view(),
        }
    }
}

impl DeepView for Event {
    type V = EventV;

    open spec fn deep_view(&self) -> EventV {
        self.view()
    }
}

impl Event {
    /// A fresh event for `project_id` from `source` with `event_type`, not
    /// yet stored by the server.
    pub fn new(project_id: String, source: String, event_type: String) -> (r: Self)
        ensures
            r@ == (EventV {
                metadata: None,
                type_meta: None,
                project_id: project_id@,
                source: source@,
                event_type: event_type@,
                labels: None,
                short_title: None,
                long_title: None,
                git: None,
                payload: None,
                worker: None,
            }),
    {
        Self {
            metadata: Option::None,
            type_meta: Option::None,
            project_id,
            source,
            event_type,
            labels: Option::None,
            short_title: Option::None,
            long_title: Option::None,
            git: Option::None,
            payload: Option::None,
            worker: Option::None,
        }
    }
}

impl Payload for Event {
    open spec fn to_jv(v: EventV) -> JsonV {
        JsonV::Obj(
            opt_payload_field::<ObjectMeta>("metadata"@, v.metadata) + tm_fields(v.type_meta)
                + sfield("projectID"@, JsonV::Str(v.project_id)) + sfield(
                "source"@,
                JsonV::Str(v.source),
            ) + sfield("type"@, JsonV::Str(v.event_type)) + opt_strmap_field("labels"@, v.labels)
                + opt_str_field("shortTitle"@, v.short_title) + opt_str_field(
                "longTitle"@,
                v.long_title,
            ) + opt_payload_field::<GitDetails>("git"@, v.git) + opt_str_field(
                "payload"@,
                v.payload,
            ) + opt_payload_field::<Worker>("worker"@, v.worker),
        )
    }

    open spec fn of_jv(j: JsonV) -> Option<EventV> {
        match j {
            JsonV::Obj(m) => match (
                jv_opt_payload::<ObjectMeta>(m, "metadata"@),
                tm_of(m),
                jv_str(m, "projectID"@),
                jv_str(m, "source"@),
                jv_str(m, "type"@),
                jv_opt_strmap(m, "labels"@),
                jv_opt_str(m, "shortTitle"@),
                jv_opt_str(m, "longTitle"@),
                jv_opt_payload::<GitDetails>(m, "git"@),
                jv_opt_str(m, "payload"@),
                jv_opt_payload::<Worker>(m, "worker"@),
            ) {
                (Some(metadata), Some(type_meta), Some(project_id), Some(source), Some(
                    event_type,
                ), Some(labels), Some(short_title), Some(long_title), Some(git), Some(payload),
                    Some(worker)) => Some(
                    EventV {
                        metadata,
                        type_meta,
                        project_id,
                        source,
                        event_type,
                        labels,
                        short_title,
                        long_title,
                        git,
                        payload,
                        worker,
                    },
                ),
                _ => None,
            },
            _ => None,
        }
    }

    fn to_json(&self) -> (r: Json) {
        event_to_json_with_tm(self, self.type_meta)
    }

    fn from_json(j: &Json) -> (r: Option<Self>) {
        match j {
            Json::Obj(fields) => {
                proof {
                    assert(*j == Json::Obj(*fields));
                    crate::json::lemma_json_v_obj(*fields);
                }
                match (
                    get_opt_payload::<ObjectMeta>(fields, "metadata"),
                    get_tm(fields),
                    get_str(fields, "projectID"),
                    get_str(fields, "source"),
                    get_str(fields, "type"),
                    get_opt_strmap(fields, "labels"),
                    get_opt_str(fields, "shortTitle"),
                    get_opt_str(fields, "longTitle"),
                    get_opt_payload::<GitDetails>(fields, "git"),
                    get_opt_str(fields, "payload"),
                    get_opt_payload::<Worker>(fields, "worker"),
                ) {
                    (
                        Option::Some(metadata),
                        Option::Some(type_meta),
                        Option::Some(project_id),
                        Option::Some(source),
                        Option::Some(event_type),
                        Option::Some(labels),
                        Option::Some(short_title),
                        Option::Some(long_title),
                        Option::Some(git),
                        Option::Some(payload),
                        Option::Some(worker),
                    ) => Some(
                        Event {
                            metadata,
                            type_meta,
                            project_id,
                            source,
                            event_type,
                            labels,
                            short_title,
                            long_title,
                            git,
                            payload,
                            worker,
                        },
                    ),
                    _ => None,
                }
            },
            _ => None,
        }
    }

    #[verifier::rlimit(100)]
    #[verifier::spinoff_prover]
    proof fn lemma_round_trip(v: EventV) {
        broadcast use group_lookup_rules;

        reveal_strlit("metadata");
        reveal_strlit("kind");
        reveal_strlit("apiVersion");
        reveal_strlit("projectID");
        reveal_strlit("source");
        reveal_strlit("type");
        reveal_strlit("labels");
        reveal_strlit("shortTitle");
        reveal_strlit("longTitle");
        reveal_strlit("git");
        reveal_strlit("payload");
        reveal_strlit("worker");
        assert("metadata"@.len() == 8);
        assert("kind"@.len() == 4);
        assert("apiVersion"@.len() == 10);
        assert("projectID"@.len() == 9);
        assert("source"@.len() == 6);
        assert("type"@.len() == 4);
        assert("labels"@.len() == 6);
        assert("shortTitle"@.len() == 10);
        assert("longTitle"@.len() == 9);
        assert("git"@.len() == 3);
        assert("payload"@.len() == 7);
        assert("worker"@.len() == 6);
        assert("longTitle"@[0] != "projectID"@[0]);
        assert("labels"@[0] != "source"@[0]);
        assert("worker"@[0] != "source"@[0]);
        assert("worker"@[0] != "labels"@[0]);
        assert("type"@[0] != "kind"@[0]);
        assert("shortTitle"@[0] != "apiVersion"@[0]);
        let c1 = opt_payload_field::<ObjectMeta>("metadata"@, v.metadata);
        let c2 = tm_fields(v.type_meta);
        let c3 = sfield("projectID"@, JsonV::Str(v.project_id));
        let c4 = sfield("source"@, JsonV::Str(v.source));
        let c5 = sfield("type"@, JsonV::Str(v.event_type));
        let c6 = opt_strmap_field("labels"@, v.labels);
        let c7 = opt_str_field("shortTitle"@, v.short_title);
        let c8 = opt_str_field("longTitle"@, v.long_title);
        let c9 = opt_payload_field::<GitDetails>("git"@, v.git);
        let c10 = opt_str_field("payload"@, v.payload);
        let c11 = opt_payload_field::<Worker>("worker"@, v.worker);
        let p2 = c1 + c2;
        let p3 = p2 + c3;
        let p4 = p3 + c4;
        let p5 = p4 + c5;
        let p6 = p5 + c6;
        let p7 = p6 + c7;
        let p8 = p7 + c8;
        let p9 = p8 + c9;
        let p10 = p9 + c10;
        let p11 = p10 + c11;
        let m = p11;
        assert(Self::to_jv(v) == JsonV::Obj(m));
        lemma_lookup_tm_fields(v.type_meta, "metadata"@);
        lemma_jv_lookup_append(c1, c2, "metadata"@);
        lemma_jv_lookup_append(p2, c3, "metadata"@);
        lemma_jv_lookup_append(p3, c4, "metadata"@);
        lemma_jv_lookup_append(p4, c5, "metadata"@);
        lemma_jv_lookup_append(p5, c6, "metadata"@);
        lemma_jv_lookup_append(p6, c7, "metadata"@);
        lemma_jv_lookup_append(p7, c8, "metadata"@);
        lemma_jv_lookup_append(p8, c9, "metadata"@);
        lemma_jv_lookup_append(p9, c10, "metadata"@);
        lemma_jv_lookup_append(p10, c11, "metadata"@);
        lemma_lookup_tm_fields(v.type_meta, "kind"@);
        lemma_jv_lookup_append(c1, c2, "kind"@);
        lemma_jv_lookup_append(p2, c3, "kind"@);
        lemma_jv_lookup_append(p3, c4, "kind"@);
        lemma_jv_lookup_append(p4, c5, "kind"@);
        lemma_jv_lookup_append(p5, c6, "kind"@);
        lemma_jv_lookup_append(p6, c7, "kind"@);
        lemma_jv_lookup_append(p7, c8, "kind"@);
        lemma_jv_lookup_append(p8, c9, "kind"@);
        lemma_jv_lookup_append(p9, c10, "kind"@);
        lemma_jv_lookup_append(p10, c11, "kind"@);
        lemma_lookup_tm_fields(v.type_meta, "apiVersion"@);
        lemma_jv_lookup_append(c1, c2, "apiVersion"@);
        lemma_jv_lookup_append(p2, c3, "apiVersion"@);
        lemma_jv_lookup_append(p3, c4, "apiVersion"@);
        lemma_jv_lookup_append(p4, c5, "apiVersion"@);
        lemma_jv_lookup_append(p5, c6, "apiVersion"@);
        lemma_jv_lookup_append(p6, c7, "apiVersion"@);
        lemma_jv_lookup_append(p7, c8, "apiVersion"@);
        lemma_jv_lookup_append(p8, c9, "apiVersion"@);
        lemma_jv_lookup_append(p9, c10, "apiVersion"@);
        lemma_jv_lookup_append(p10, c11, "apiVersion"@);
        lemma_lookup_tm_fields(v.type_meta, "projectID"@);
        lemma_jv_lookup_append(c1, c2, "projectID"@);
        lemma_jv_lookup_append(p2, c3, "projectID"@);
        lemma_jv_lookup_append(p3, c4, "projectID"@);
        lemma_jv_lookup_append(p4, c5, "projectID"@);
        lemma_jv_lookup_append(p5, c6, "projectID"@);
        lemma_jv_lookup_append(p6, c7, "projectID"@);
        lemma_jv_lookup_append(p7, c8, "projectID"@);
        lemma_jv_lookup_append(p8, c9, "projectID"@);
        lemma_jv_lookup_append(p9, c10, "projectID"@);
        lemma_jv_lookup_append(p10, c11, "projectID"@);
        lemma_lookup_tm_fields(v.type_meta, "source"@);
        lemma_jv_lookup_append(c1, c2, "source"@);
        lemma_jv_lookup_append(p2, c3, "source"@);
        lemma_jv_lookup_append(p3, c4, "source"@);
        lemma_jv_lookup_append(p4, c5, "source"@);
        lemma_jv_lookup_append(p5, c6, "source"@);
        lemma_jv_lookup_append(p6, c7, "source"@);
        lemma_jv_lookup_append(p7, c8, "source"@);
        lemma_jv_lookup_append(p8, c9, "source"@);
        lemma_jv_lookup_append(p9, c10, "source"@);
        lemma_jv_lookup_append(p10, c11, "source"@);
        lemma_lookup_tm_fields(v.type_meta, "type"@);
        lemma_jv_lookup_append(c1, c2, "type"@);
        lemma_jv_lookup_append(p2, c3, "type"@);
        lemma_jv_lookup_append(p3, c4, "type"@);
        lemma_jv_lookup_append(p4, c5, "type"@);
        lemma_jv_lookup_append(p5, c6, "type"@);
        lemma_jv_lookup_append(p6, c7, "type"@);
        lemma_jv_lookup_append(p7, c8, "type"@);
        lemma_jv_lookup_append(p8, c9, "type"@);
        lemma_jv_lookup_append(p9, c10, "type"@);
        lemma_jv_lookup_append(p10, c11, "type"@);
        lemma_lookup_tm_fields(v.type_meta, "labels"@);
        lemma_jv_lookup_append(c1, c2, "labels"@);
        lemma_jv_lookup_append(p2, c3, "labels"@);
        lemma_jv_lookup_append(p3, c4, "labels"@);
        lemma_jv_lookup_append(p4, c5, "labels"@);
        lemma_jv_lookup_append(p5, c6, "labels"@);
        lemma_jv_lookup_append(p6, c7, "labels"@);
        lemma_jv_lookup_append(p7, c8, "labels"@);
        lemma_jv_lookup_append(p8, c9, "labels"@);
        lemma_jv_lookup_append(p9, c10, "labels"@);
        lemma_jv_lookup_append(p10, c11, "labels"@);
        lemma_lookup_tm_fields(v.type_meta, "shortTitle"@);
        lemma_jv_lookup_append(c1, c2, "shortTitle"@);
        lemma_jv_lookup_append(p2, c3, "shortTitle"@);
        lemma_jv_lookup_append(p3, c4, "shortTitle"@);
        lemma_jv_lookup_append(p4, c5, "shortTitle"@);
        lemma_jv_lookup_append(p5, c6, "shortTitle"@);
        lemma_jv_lookup_append(p6, c7, "shortTitle"@);
        lemma_jv_lookup_append(p7, c8, "shortTitle"@);
        lemma_jv_lookup_append(p8, c9, "shortTitle"@);
        lemma_jv_lookup_append(p9, c10, "shortTitle"@);
        lemma_jv_lookup_append(p10, c11, "shortTitle"@);
        lemma_lookup_tm_fields(v.type_meta, "longTitle"@);
        lemma_jv_lookup_append(c1, c2, "longTitle"@);
        lemma_jv_lookup_append(p2, c3, "longTitle"@);
        lemma_jv_lookup_append(p3, c4, "longTitle"@);
        lemma_jv_lookup_append(p4, c5, "longTitle"@);
        lemma_jv_lookup_append(p5, c6, "longTitle"@);
        lemma_jv_lookup_append(p6, c7, "longTitle"@);
        lemma_jv_lookup_append(p7, c8, "longTitle"@);
        lemma_jv_lookup_append(p8, c9, "longTitle"@);
        lemma_jv_lookup_append(p9, c10, "longTitle"@);
        lemma_jv_lookup_append(p10, c11, "longTitle"@);
        lemma_lookup_tm_fields(v.type_meta, "git"@);
        lemma_jv_lookup_append(c1, c2, "git"@);
        lemma_jv_lookup_append(p2, c3, "git"@);
        lemma_jv_lookup_append(p3, c4, "git"@);
        lemma_jv_lookup_append(p4, c5, "git"@);
        lemma_jv_lookup_append(p5, c6, "git"@);
        lemma_jv_lookup_append(p6, c7, "git"@);
        lemma_jv_lookup_append(p7, c8, "git"@);
        lemma_jv_lookup_append(p8, c9, "git"@);
        lemma_jv_lookup_append(p9, c10, "git"@);
        lemma_jv_lookup_append(p10, c11, "git"@);
        lemma_lookup_tm_fields(v.type_meta, "payload"@);
        lemma_jv_lookup_append(c1, c2, "payload"@);
        lemma_jv_lookup_append(p2, c3, "payload"@);
        lemma_jv_lookup_append(p3, c4, "payload"@);
        lemma_jv_lookup_append(p4, c5, "payload"@);
        lemma_jv_lookup_append(p5, c6, "payload"@);
        lemma_jv_lookup_append(p6, c7, "payload"@);
        lemma_jv_lookup_append(p7, c8, "payload"@);
        lemma_jv_lookup_append(p8, c9, "payload"@);
        lemma_jv_lookup_append(p9, c10, "payload"@);
        lemma_jv_lookup_append(p10, c11, "payload"@);
        lemma_lookup_tm_fields(v.type_meta, "worker"@);
        lemma_jv_lookup_append(c1, c2, "worker"@);
        lemma_jv_lookup_append(p2, c3, "worker"@);
        lemma_jv_lookup_append(p3, c4, "worker"@);
        lemma_jv_lookup_append(p4, c5, "worker"@);
        lemma_jv_lookup_append(p5, c6, "worker"@);
        lemma_jv_lookup_append(p6, c7, "worker"@);
        lemma_jv_lookup_append(p7, c8, "worker"@);
        lemma_jv_lookup_append(p8, c9, "worker"@);
        lemma_jv_lookup_append(p9, c10, "worker"@);
        lemma_jv_lookup_append(p10, c11, "worker"@);
        match v.metadata {
            Some(md) => {
                <ObjectMeta as Payload>::lemma_round_trip(md);
                assert(!(<ObjectMeta as Payload>::to_jv(md) is Null));
                assert(jv_opt_payload::<ObjectMeta>(m, "metadata"@) == Some(Some(md)));
            },
            None => {
                assert(jv_opt_payload::<ObjectMeta>(m, "metadata"@) == Some(
                    Option::<ObjectMetaV>::None,
                ));
            },
        }
        match v.type_meta {
            Some(tm) => {
                <TypeMeta as Payload>::lemma_round_trip(tm);
                assert(tm_of(m) == Some(Some(tm)));
            },
            None => {
                assert(tm_of(m) == Some(Option::<TypeMeta>::None));
            },
        }
        assert(jv_str(m, "projectID"@) == Some(v.project_id));
        assert(jv_str(m, "source"@) == Some(v.source));
        assert(jv_str(m, "type"@) == Some(v.event_type));
        match v.labels {
            Some(ls) => {
                lemma_strmap_round_trip(ls);
                assert(jv_opt_strmap(m, "labels"@) == Some(Some(ls)));
            },
            None => {
            },
        }
        assert(jv_opt_str(m, "shortTitle"@) == Some(v.short_title));
        assert(jv_opt_str(m, "longTitle"@) == Some(v.long_title));
        match v.git {
            Some(g) => {
                <GitDetails as Payload>::lemma_round_trip(g);
                assert(!(<GitDetails as Payload>::to_jv(g) is Null));
                assert(jv_opt_payload::<GitDetails>(m, "git"@) == Some(Some(g)));
            },
            None => {
                assert(jv_opt_payload::<GitDetails>(m, "git"@) == Some(
                    Option::<GitDetailsV>::None,
                ));
            },
        }
        assert(jv_opt_str(m, "payload"@) == Some(v.payload));
        match v.worker {
            Some(w) => {
                <Worker as Payload>::lemma_round_trip(w);
                assert(!(<Worker as Payload>::to_jv(w) is Null));
                assert(jv_opt_payload::<Worker>(m, "worker"@) == Some(Some(w)));
            },
            None => {
                assert(jv_opt_payload::<Worker>(m, "worker"@) == Some(
                    Option::<crate::worker::WorkerV>::None,
                ));
            },
        }
    }
}

/// Encodes `e` with `tm` in place of its own type tag; every other field
/// goes out exactly as it stands in `e`.
fn event_to_json_with_tm(e: &Event, tm: Option<TypeMeta>) -> (r: Json)
    ensures
        r@ == <Event as Payload>::to_jv(
            EventV { type_meta: tm, ..e.deep_view() },
        ),
{
    let mut out: Vec<(String, Json)> = Vec::new();
    push_opt_payload_field::<ObjectMeta>(&mut out, "metadata", &e.metadata);
    push_tm(&mut out, tm);
    push_str_field(&mut out, "projectID", &e.project_id);
    push_str_field(&mut out, "source", &e.source);
    push_str_field(&mut out, "type", &e.event_type);
    push_opt_strmap_field(&mut out, "labels", &e.labels);
    push_opt_str_field(&mut out, "shortTitle", &e.short_title);
    push_opt_str_field(&mut out, "longTitle", &e.long_title);
    push_opt_payload_field::<GitDetails>(&mut out, "git", &e.git);
    push_opt_str_field(&mut out, "payload", &e.payload);
    push_opt_payload_field::<Worker>(&mut out, "worker", &e.worker);
    proof {
        crate::json::lemma_json_v_obj(out);
        let w = EventV { type_meta: tm, ..e.deep_view() };
        assert(crate::json::obj_v(Seq::<(String, Json)>::empty()) + opt_payload_field::<
            ObjectMeta,
        >("metadata"@, w.metadata) + tm_fields(w.type_meta) + sfield(
            "projectID"@,
            JsonV::Str(w.project_id),
        ) + sfield("source"@, JsonV::Str(w.source)) + sfield("type"@, JsonV::Str(w.event_type))
            + opt_strmap_field("labels"@, w.labels) + opt_str_field("shortTitle"@, w.short_title)
            + opt_str_field("longTitle"@, w.long_title) + opt_payload_field::<GitDetails>(
            "git"@,
            w.git,
        ) + opt_str_field("payload"@, w.payload) + opt_payload_field::<Worker>("worker"@, w.worker)
            =~= opt_payload_field::<ObjectMeta>("metadata"@, w.metadata) + tm_fields(w.type_meta)
            + sfield("projectID"@, JsonV::Str(w.project_id)) + sfield(
            "source"@,
            JsonV::Str(w.source),
        ) + sfield("type"@, JsonV::Str(w.event_type)) + opt_strmap_field("labels"@, w.labels)
            + opt_str_field("shortTitle"@, w.short_title) + opt_str_field(
            "longTitle"@,
            w.long_title,
        ) + opt_payload_field::<GitDetails>("git"@, w.git) + opt_str_field("payload"@, w.payload)
            + opt_payload_field::<Worker>("worker"@, w.worker));
    }
    Json::Obj(out)
}

/// What the platform's write-time rules make of an event before it is
/// sent: the type tag is stamped; every other field goes out as given.
pub open spec fn stamped_event(e: EventV) -> EventV {
    EventV { type_meta: Some(TypeMeta { kind: Kind::Event, api_version: APIVersion::V2 }), ..e }
}

/// The typed client of the events collection.
pub struct EventsClient {
    pub client: Client,
}

impl EventsClient {
    /// An events client for the API at `address`, carrying `token` as the
    /// bearer credential of every request when one is given.
    pub fn new(address: String, cfg: ClientConfig, token: Option<String>) -> (r: Self)
        ensures
            r.client.base_address == address,
            r.client.url_path@ == "events"@,
            r.client.config == cfg,
            r.client.token == token,
    {
        let client = Client::new(address, String::from_str("events"), cfg, token);
        Self { client }
    }

    /// The request of `get`: GET on the event's URL.
    pub fn get_request(&self, id: &str) -> (r: HttpRequest)
        ensures
            r.method == Method::Get,
            r.url@ == item_url(self.client.base_address@, self.client.url_path@, id@),
            r.auth@ == bearer_of(self.client.token.deep_view()),
            r.query.deep_view() == Seq::<(Seq<char>, Seq<char>)>::empty(),
            r.body is None,
    {
        self.client.get_request(id)
    }

    /// Decodes the response of a `get` as an [`Event`].
    pub fn decode_event(&self, body: &str) -> (r: Result<Event, BrigadeError>)
        ensures
            (match r {
                Ok(e) => decoded::<Event>(body@) == Some(e.deep_view()),
                Err(e) => decoded::<Event>(body@) is None && e is Decode,
            }),
    {
        decode_body(body)
    }

    /// The request of `list`: GET on the collection URL, carrying first the
    /// pagination parameters that `opts` calls for and then the selector's
    /// `projectID` and `workerPhases` filters, each only when set.
    pub fn list(&self, sel: Option<EventsSelector>, opts: Option<ListOptions>) -> (r:
        HttpRequest)
        ensures
            r.method == Method::Get,
            r.url@ == collection_url(self.client.base_address@, self.client.url_path@),
            r.auth@ == bearer_of(self.client.token.deep_view()),
            r.query.deep_view() == pagination_params(opts.deep_view()) + selector_params(
                sel.deep_view(),
            ),
            r.body is None,
    {
        let mut r = self.client.list_req(opts);
        let ghost base = r.query.deep_view();
        match sel {
            Option::Some(s) => {
                match s.project_id {
                    Option::Some(id) => {
                        r.query.push((String::from_str("projectID"), id));
                    },
                    Option::None => {},
                }
                match s.worker_phases {
                    Option::Some(ps) => {
                        proof {
                            assert(ps.deep_view() =~= ps@);
                        }
                        let joined = WorkerPhase::vec_to_query_param(ps);
                        r.query.push((String::from_str("workerPhases"), joined));
                    },
                    Option::None => {},
                }
                proof {
                    assert(r.query.deep_view() =~= base + selector_params(sel.deep_view()));
                }
            },
            Option::None => {
                proof {
                    assert(r.query.deep_view() =~= base + selector_params(sel.deep_view()));
                }
            },
        }
        r
    }

    /// Decodes the response of a `list` as one page of events.
    pub fn decode_list(&self, body: &str) -> (r: Result<List<Event>, BrigadeError>)
        ensures
            (match r {
                Ok(l) => decoded::<List<Event>>(body@) == Some(l.deep_view()),
                Err(e) => decoded::<List<Event>>(body@) is None && e is Decode,
            }),
    {
        decode_body(body)
    }

    /// The request of `create`: POST on the collection URL with the stamped
    /// form of `event` as the body.  The caller's `event` is never mutated;
    /// the stamped type tag is visible only in the transmitted payload.
    /// The server answers with the list of events actually created.
    pub fn create_request(&self, event: &Event) -> (r: HttpRequest)
        ensures
            r.method == Method::Post,
            r.url@ == collection_url(self.client.base_address@, self.client.url_path@),
            r.auth@ == bearer_of(self.client.token.deep_view()),
            r.query.deep_view() == Seq::<(Seq<char>, Seq<char>)>::empty(),
            r.body.deep_view() == Some(
                crate::client::encoded::<Event>(stamped_event(event.deep_view())),
            ),
    {
        let j = event_to_json_with_tm(
            event,
            Option::Some(TypeMeta { kind: Kind::Event, api_version: APIVersion::V2 }),
        );
        let chars = json_to_chars(&j);
        let body = string_from_chars(&chars);
        let url = self.client.collection_url_string();
        let mut r = self.client.req(Method::Post, url.as_str(), Option::None);
        r.body = Option::Some(body);
        r
    }

    /// The request of `cancel`: PUT on the event's cancellation URL, with
    /// no body.  The response is discarded.
    pub fn cancel_request(&self, id: &str) -> (r: HttpRequest)
        ensures
            r.method == Method::Put,
            r.url@ == item_url(self.client.base_address@, self.client.url_path@, id@)
                + "/cancellation"@,
            r.auth@ == bearer_of(self.client.token.deep_view()),
            r.query.deep_view() == Seq::<(Seq<char>, Seq<char>)>::empty(),
            r.body is None,
    {
        let mut url = self.client.item_url_string(id);
        url.append("/cancellation");
        self.client.req(Method::Put, url.as_str(), Option::None)
    }
}

} // verus!

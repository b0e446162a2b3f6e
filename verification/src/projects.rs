//! Projects: the subscription units of the platform, and their typed
//! client.

use vstd::prelude::*;

use crate::client::{collection_url, decode_body, decoded, encoded, item_url, Client};
use crate::error::BrigadeError;
use crate::events::EventSubscription;
use crate::json::{json_to_chars, Json, JsonV};
use crate::meta::{
    get_tm, lemma_lookup_tm_fields, push_tm, tm_fields, tm_of, APIVersion, Kind, List,
    ListOptions, ObjectMeta, ObjectMetaV, TypeMeta,
};
use crate::payload::{
    get_opt_arr, get_opt_payload, get_opt_str, get_req_payload, group_lookup_rules,
    jv_opt_arr, jv_opt_payload, jv_opt_str, jv_req_payload, lemma_seq_round_trip, opt_arr_field,
    opt_payload_field, opt_str_field, push_opt_arr_field, push_opt_payload_field,
    push_opt_str_field, push_payload_field, sfield, Payload,
};
use crate::rest::{bearer_of, pagination_params, HttpRequest, Method};
use crate::text::string_from_chars;
use crate::worker::{WorkerSpec, WorkerSpecV};

pub use crate::rest::ClientConfig;

verus! {

/// Cluster-level details of a project, set by the server and never sent by
/// a client.
#[derive(Debug, Clone, PartialEq)]
pub struct KubernetesDetails {
    pub namespace: Option<String>,
}

/// The mathematical model of a [`KubernetesDetails`].
pub struct KubernetesDetailsV {
    pub namespace: Option<Seq<char>>,
}

impl View for KubernetesDetails {
    type V = KubernetesDetailsV;

    open spec fn view(&self) -> KubernetesDetailsV {
        KubernetesDetailsV { namespace: self.namespace.deep_view() }
    }
}

impl DeepView for KubernetesDetails {
    type V = KubernetesDetailsV;

    open spec fn deep_view(&self) -> KubernetesDetailsV {
        self.view()
    }
}

impl Payload for KubernetesDetails {
    open spec fn to_jv(v: KubernetesDetailsV) -> JsonV {
        JsonV::Obj(opt_str_field("namespace"@, v.namespace))
    }

    open spec fn of_jv(j: JsonV) -> Option<KubernetesDetailsV> {
        match j {
            JsonV::Obj(m) => match jv_opt_str(m, "namespace"@) {
                Some(namespace) => Some(KubernetesDetailsV { namespace }),
                _ => None,
            },
            _ => None,
        }
    }

    fn to_json(&self) -> (r: Json) {
        let mut out: Vec<(String, Json)> = Vec::new();
        push_opt_str_field(&mut out, "namespace", &self.namespace);
        proof {
            crate::json::lemma_json_v_obj(out);
            assert(crate::json::obj_v(Seq::<(String, Json)>::empty()) + opt_str_field(
                "namespace"@,
                self.namespace.deep_view(),
            ) =~= opt_str_field("namespace"@, self.namespace.deep_view()));
        }
        Json::Obj(out)
    }

    fn from_json(j: &Json) -> (r: Option<Self>) {
        match j {
            Json::Obj(fields) => {
                proof {
                    assert(*j == Json::Obj(*fields));
                    crate::json::lemma_json_v_obj(*fields);
                }
                match get_opt_str(fields, "namespace") {
                    Option::Some(namespace) => Some(KubernetesDetails { namespace }),
                    _ => None,
                }
            },
            _ => None,
        }
    }

    proof fn lemma_round_trip(v: KubernetesDetailsV) {
        broadcast use group_lookup_rules;

        reveal_strlit("namespace");
        let m = opt_str_field("namespace"@, v.namespace);
        assert(Self::to_jv(v) == JsonV::Obj(m));
        assert(jv_opt_str(m, "namespace"@) == Some(v.namespace));
    }
}

/// What a project subscribes to and how its workers run.
#[derive(Debug, Clone, PartialEq)]
pub struct ProjectSpec {
    pub event_subscriptions: Option<Vec<EventSubscription>>,
    pub worker_template: WorkerSpec,
}

/// The mathematical model of a [`ProjectSpec`].
pub struct ProjectSpecV {
    pub event_subscriptions: Option<Seq<crate::events::EventSubscriptionV>>,
    pub worker_template: WorkerSpecV,
}

impl View for ProjectSpec {
    type V = ProjectSpecV;

    open spec fn view(&self) -> ProjectSpecV {
        ProjectSpecV {
            event_subscriptions: self.event_subscriptions.deep_view(),
            worker_template: self.worker_template@,
        }
    }
}

impl DeepView for ProjectSpec {
    type V = ProjectSpecV;

    open spec fn deep_view(&self) -> ProjectSpecV {
        self.view()
    }
}

impl Payload for ProjectSpec {
    open spec fn to_jv(v: ProjectSpecV) -> JsonV {
        JsonV::Obj(
            opt_arr_field::<EventSubscription>("eventSubscriptions"@, v.event_subscriptions)
                + sfield("workerTemplate"@, <WorkerSpec as Payload>::to_jv(v.worker_template)),
        )
    }

    open spec fn of_jv(j: JsonV) -> Option<ProjectSpecV> {
        match j {
            JsonV::Obj(m) => match (
                jv_opt_arr::<EventSubscription>(m, "eventSubscriptions"@),
                jv_req_payload::<WorkerSpec>(m, "workerTemplate"@),
            ) {
                (Some(event_subscriptions), Some(worker_template)) => Some(
                    ProjectSpecV { event_subscriptions, worker_template },
                ),
                _ => None,
            },
            _ => None,
        }
    }

    fn to_json(&self) -> (r: Json) {
        let mut out: Vec<(String, Json)> = Vec::new();
        push_opt_arr_field::<EventSubscription>(
            &mut out,
            "eventSubscriptions",
            &self.event_subscriptions,
        );
        push_payload_field::<WorkerSpec>(&mut out, "workerTemplate", &self.worker_template);
        proof {
            crate::json::lemma_json_v_obj(out);
            assert(crate::json::obj_v(Seq::<(String, Json)>::empty()) + opt_arr_field::<
                EventSubscription,
            >("eventSubscriptions"@, self.event_subscriptions.deep_view()) + sfield(
                "workerTemplate"@,
                <WorkerSpec as Payload>::to_jv(self.worker_template@),
            ) =~= opt_arr_field::<EventSubscription>(
                "eventSubscriptions"@,
                self.event_subscriptions.deep_view(),
            ) + sfield("workerTemplate"@, <WorkerSpec as Payload>::to_jv(self.worker_template@)));
        }
        Json::Obj(out)
    }

    fn from_json(j: &Json) -> (r: Option<Self>) {
        match j {
            Json::Obj(fields) => {
                proof {
                    assert(*j == Json::Obj(*fields));
                    crate::json::lemma_json_v_obj(*fields);
                }
                match (
                    get_opt_arr::<EventSubscription>(fields, "eventSubscriptions"),
                    get_req_payload::<WorkerSpec>(fields, "workerTemplate"),
                ) {
                    (Option::Some(event_subscriptions), Option::Some(worker_template)) => Some(
                        ProjectSpec { event_subscriptions, worker_template },
                    ),
                    _ => None,
                }
            },
            _ => None,
        }
    }

    proof fn lemma_round_trip(v: ProjectSpecV) {
        broadcast use group_lookup_rules;

        reveal_strlit("eventSubscriptions");
        reveal_strlit("workerTemplate");
        assert("eventSubscriptions"@.len() == 18);
        assert("workerTemplate"@.len() == 14);
        let m = opt_arr_field::<EventSubscription>("eventSubscriptions"@, v.event_subscriptions)
            + sfield("workerTemplate"@, <WorkerSpec as Payload>::to_jv(v.worker_template));
        assert(Self::to_jv(v) == JsonV::Obj(m));
        match v.event_subscriptions {
            Some(es) => {
                lemma_seq_round_trip::<EventSubscription>(es);
                assert(jv_opt_arr::<EventSubscription>(m, "eventSubscriptions"@) == Some(
                    Some(es),
                ));
            },
            None => {
            },
        }
        <WorkerSpec as Payload>::lemma_round_trip(v.worker_template);
        assert(jv_req_payload::<WorkerSpec>(m, "workerTemplate"@) == Some(v.worker_template));
    }
}

/// One project: its identity, optional type tag, description,
/// specification, and server-managed cluster details.
#[derive(Debug, Clone, PartialEq)]
pub struct Project {
    pub metadata: ObjectMeta,
    pub type_meta: Option<TypeMeta>,
    pub description: Option<String>,
    pub spec: ProjectSpec,
    pub kubernetes: Option<KubernetesDetails>,
}

/// The mathematical model of a [`Project`].
pub struct ProjectV {
    pub metadata: ObjectMetaV,
    pub type_meta: Option<TypeMeta>,
    pub description: Option<Seq<char>>,
    pub spec: ProjectSpecV,
    pub kubernetes: Option<KubernetesDetailsV>,
}

impl View for Project {
    type V = ProjectV;

    open spec fn view(&self) -> ProjectV {
        ProjectV {
            metadata: self.metadata@,
            type_meta: self.type_meta,
            description: self.description.deep_view(),
            spec: self.spec@,
            kubernetes: self.kubernetes.deep_view(),
        }
    }
}

impl DeepView for Project {
    type V = ProjectV;

    open spec fn deep_view(&self) -> ProjectV {
        self.view()
    }
}

/// An empty selector: project listings take no filters.
#[derive(Debug, Clone, PartialEq)]
pub struct ProjectsSelector {
}

impl Project {
    /// A fresh project carrying one default `brigade.js` script, not yet
    /// stored by the server.
    pub fn new(id: String, description: String, script: String) -> (r: Self)
        ensures
            r@ == (ProjectV {
                metadata: ObjectMetaV { id: id@, created: None },
                type_meta: None,
                description: Some(description@),
                spec: ProjectSpecV {
                    event_subscriptions: None,
                    worker_template: WorkerSpecV {
                        container: None,
                        use_workspace: None,
                        workspace_size: None,
                        git: None,
                        kubernetes: None,
                        job_policies: None,
                        log_level: None,
                        config_files_directory: None,
                        default_config_files: Some(seq![("brigade.js"@, script@)]),
                    },
                },
                kubernetes: None,
            }),
    {
        let worker_template = WorkerSpec::new(script);
        Project {
            metadata: ObjectMeta { id, created: Option::None },
            type_meta: Option::None,
            description: Option::Some(description),
            spec: ProjectSpec { event_subscriptions: Option::None, worker_template },
            kubernetes: Option::None,
        }
    }
}

impl Payload for Project {
    open spec fn to_jv(v: ProjectV) -> JsonV {
        JsonV::Obj(
            sfield("metadata"@, <ObjectMeta as Payload>::to_jv(v.metadata)) + tm_fields(
                v.type_meta,
            ) + opt_str_field("description"@, v.description) + sfield(
                "spec"@,
                <ProjectSpec as Payload>::to_jv(v.spec),
            ) + opt_payload_field::<KubernetesDetails>("kubernetes"@, v.kubernetes),
        )
    }

    open spec fn of_jv(j: JsonV) -> Option<ProjectV> {
        match j {
            JsonV::Obj(m) => match (
                jv_req_payload::<ObjectMeta>(m, "metadata"@),
                tm_of(m),
                jv_opt_str(m, "description"@),
                jv_req_payload::<ProjectSpec>(m, "spec"@),
                jv_opt_payload::<KubernetesDetails>(m, "kubernetes"@),
            ) {
                (Some(metadata), Some(type_meta), Some(description), Some(spec), Some(
                    kubernetes,
                )) => Some(ProjectV { metadata, type_meta, description, spec, kubernetes }),
                _ => None,
            },
            _ => None,
        }
    }

    fn to_json(&self) -> (r: Json) {
        let mut out: Vec<(String, Json)> = Vec::new();
        push_payload_field::<ObjectMeta>(&mut out, "metadata", &self.metadata);
        push_tm(&mut out, self.type_meta);
        push_opt_str_field(&mut out, "description", &self.description);
        push_payload_field::<ProjectSpec>(&mut out, "spec", &self.spec);
        push_opt_payload_field::<KubernetesDetails>(&mut out, "kubernetes", &self.kubernetes);
        proof {
            crate::json::lemma_json_v_obj(out);
            assert(crate::json::obj_v(Seq::<(String, Json)>::empty()) + sfield(
                "metadata"@,
                <ObjectMeta as Payload>::to_jv(self.metadata@),
            ) + tm_fields(self.type_meta) + opt_str_field(
                "description"@,
                self.description.deep_view(),
            ) + sfield("spec"@, <ProjectSpec as Payload>::to_jv(self.spec@))
                + opt_payload_field::<KubernetesDetails>(
                "kubernetes"@,
                self.kubernetes.deep_view(),
            ) =~= sfield("metadata"@, <ObjectMeta as Payload>::to_jv(self.metadata@)) + tm_fields(
                self.type_meta,
            ) + opt_str_field("description"@, self.description.deep_view()) + sfield(
                "spec"@,
                <ProjectSpec as Payload>::to_jv(self.spec@),
            ) + opt_payload_field::<KubernetesDetails>(
                "kubernetes"@,
                self.kubernetes.deep_view(),
            ));
        }
        Json::Obj(out)
    }

    fn from_json(j: &Json) -> (r: Option<Self>) {
        match j {
            Json::Obj(fields) => {
                proof {
                    assert(*j == Json::Obj(*fields));
                    crate::json::lemma_json_v_obj(*fields);
                }
                match (
                    get_req_payload::<ObjectMeta>(fields, "metadata"),
                    get_tm(fields),
                    get_opt_str(fields, "description"),
                    get_req_payload::<ProjectSpec>(fields, "spec"),
                    get_opt_payload::<KubernetesDetails>(fields, "kubernetes"),
                ) {
                    (
                        Option::Some(metadata),
                        Option::Some(type_meta),
                        Option::Some(description),
                        Option::Some(spec),
                        Option::Some(kubernetes),
                    ) => Some(Project { metadata, type_meta, description, spec, kubernetes }),
                    _ => None,
                }
            },
            _ => None,
        }
    }

    #[verifier::rlimit(80)]
    proof fn lemma_round_trip(v: ProjectV) {
        broadcast use group_lookup_rules;

        reveal_strlit("metadata");
        reveal_strlit("kind");
        reveal_strlit("apiVersion");
        reveal_strlit("description");
        reveal_strlit("spec");
        reveal_strlit("kubernetes");
        assert("metadata"@.len() == 8);
        assert("kind"@.len() == 4);
        assert("apiVersion"@.len() == 10);
        assert("description"@.len() == 11);
        assert("spec"@.len() == 4);
        assert("kubernetes"@.len() == 10);
        assert("spec"@[0] != "kind"@[0]);
        assert("kubernetes"@[0] != "apiVersion"@[0]);
        let m = sfield("metadata"@, <ObjectMeta as Payload>::to_jv(v.metadata)) + tm_fields(
            v.type_meta,
        ) + opt_str_field("description"@, v.description) + sfield(
            "spec"@,
            <ProjectSpec as Payload>::to_jv(v.spec),
        ) + opt_payload_field::<KubernetesDetails>("kubernetes"@, v.kubernetes);
        assert(Self::to_jv(v) == JsonV::Obj(m));
        lemma_lookup_tm_fields(v.type_meta, "metadata"@);
        lemma_lookup_tm_fields(v.type_meta, "kind"@);
        lemma_lookup_tm_fields(v.type_meta, "apiVersion"@);
        lemma_lookup_tm_fields(v.type_meta, "description"@);
        lemma_lookup_tm_fields(v.type_meta, "spec"@);
        lemma_lookup_tm_fields(v.type_meta, "kubernetes"@);
        <ObjectMeta as Payload>::lemma_round_trip(v.metadata);
        assert(jv_req_payload::<ObjectMeta>(m, "metadata"@) == Some(v.metadata));
        match v.type_meta {
            Some(tm) => {
                <TypeMeta as Payload>::lemma_round_trip(tm);
                assert(tm_of(m) == Some(Some(tm)));
            },
            None => {
                assert(tm_of(m) == Some(Option::<TypeMeta>::None));
            },
        }
        assert(jv_opt_str(m, "description"@) == Some(v.description));
        <ProjectSpec as Payload>::lemma_round_trip(v.spec);
        assert(jv_req_payload::<ProjectSpec>(m, "spec"@) == Some(v.spec));
        match v.kubernetes {
            Some(k) => {
                <KubernetesDetails as Payload>::lemma_round_trip(k);
                assert(!(<KubernetesDetails as Payload>::to_jv(k) is Null));
                assert(jv_opt_payload::<KubernetesDetails>(m, "kubernetes"@) == Some(Some(k)));
            },
            None => {
                assert(jv_opt_payload::<KubernetesDetails>(m, "kubernetes"@) == Some(
                    Option::<KubernetesDetailsV>::None,
                ));
            },
        }
    }
}

/// What the platform's write-time rules make of a project before it is
/// sent: the type tag is stamped, and the server-managed creation timestamp
/// and cluster details are cleared.  The caller's value is never touched;
/// every other field goes out exactly as given.
pub open spec fn prepared_project(p: ProjectV) -> ProjectV {
    ProjectV {
        metadata: ObjectMetaV { id: p.metadata.id, created: None },
        type_meta: Some(TypeMeta { kind: Kind::Project, api_version: APIVersion::V2 }),
        description: p.description,
        spec: p.spec,
        kubernetes: None,
    }
}

/// Encodes `p` as the body of a create or update request: the stamped and
/// cleared form of `p`, with `p` itself left untouched.
pub fn project_to_json_prepared(p: &Project) -> (r: Json)
    ensures
        r@ == <Project as Payload>::to_jv(prepared_project(p.deep_view())),
{
    let mut out: Vec<(String, Json)> = Vec::new();
    let md = ObjectMeta { id: p.metadata.id.clone(), created: Option::None };
    push_payload_field::<ObjectMeta>(&mut out, "metadata", &md);
    push_tm(&mut out, Option::Some(TypeMeta { kind: Kind::Project, api_version: APIVersion::V2 }));
    push_opt_str_field(&mut out, "description", &p.description);
    push_payload_field::<ProjectSpec>(&mut out, "spec", &p.spec);
    let nok: Option<KubernetesDetails> = Option::None;
    push_opt_payload_field::<KubernetesDetails>(&mut out, "kubernetes", &nok);
    proof {
        crate::json::lemma_json_v_obj(out);
        let pv = prepared_project(p.deep_view());
        assert(crate::json::obj_v(Seq::<(String, Json)>::empty()) + sfield(
            "metadata"@,
            <ObjectMeta as Payload>::to_jv(md@),
        ) + tm_fields(pv.type_meta) + opt_str_field("description"@, p.description.deep_view())
            + sfield("spec"@, <ProjectSpec as Payload>::to_jv(p.spec@)) + opt_payload_field::<
            KubernetesDetails,
        >("kubernetes"@, nok.deep_view()) =~= sfield(
            "metadata"@,
            <ObjectMeta as Payload>::to_jv(pv.metadata),
        ) + tm_fields(pv.type_meta) + opt_str_field("description"@, pv.description) + sfield(
            "spec"@,
            <ProjectSpec as Payload>::to_jv(pv.spec),
        ) + opt_payload_field::<KubernetesDetails>("kubernetes"@, pv.kubernetes));
    }
    Json::Obj(out)
}

/// Updating and then fetching returns what was sent: if the server stores
/// the body of `update(id, t)` verbatim and returns it to a later
/// `get(id)`, the decoded value equals the prepared payload, which agrees
/// with the caller's original in every field the client does not manage.
pub proof fn lemma_update_then_get(p: ProjectV)
    ensures
        decoded::<Project>(encoded::<Project>(prepared_project(p))) == Some(prepared_project(p)),
        prepared_project(p).metadata.id == p.metadata.id,
        prepared_project(p).description == p.description,
        prepared_project(p).spec == p.spec,
{
    crate::client::lemma_encode_decode_round_trip::<Project>(prepared_project(p));
}

/// Preparing a payload touches only the managed fields: the type tag is
/// stamped and the server-managed fields cleared, while the identity,
/// description and specification go out exactly as the caller gave them.
pub proof fn lemma_prepare_project_fields(p: ProjectV)
    ensures
        prepared_project(p).type_meta == Some(
            TypeMeta { kind: Kind::Project, api_version: APIVersion::V2 },
        ),
        prepared_project(p).metadata.created is None,
        prepared_project(p).kubernetes is None,
        prepared_project(p).metadata.id == p.metadata.id,
        prepared_project(p).description == p.description,
        prepared_project(p).spec == p.spec,
{
}

/// The typed client of the projects collection.
pub struct ProjectsClient {
    pub client: Client,
}

impl ProjectsClient {
    /// A projects client for the API at `address`, carrying `token` as the
    /// bearer credential of every request when one is given.
    pub fn new(address: String, cfg: ClientConfig, token: Option<String>) -> (r: Self)
        ensures
            r.client.base_address == address,
            r.client.url_path@ == "projects"@,
            r.client.config == cfg,
            r.client.token == token,
    {
        let client = Client::new(address, String::from_str("projects"), cfg, token);
        Self { client }
    }

    /// The request of `get`: GET on the project's URL.
    pub fn get_request(&self, id: &str) -> (r: HttpRequest)
        ensures
            r.method == Method::Get,
            r.url@ == item_url(self.client.base_address@, self.client.url_path@, id@),
            r.auth@ == bearer_of(self.client.token.deep_view()),
            r.query.deep_view() == Seq::<(Seq<char>, Seq<char>)>::empty(),
            r.body is None,
    {
        self.client.get_request(id)
    }

    /// Decodes the response of a `get`, `create` or `update` as a
    /// [`Project`].
    pub fn decode_project(&self, body: &str) -> (r: Result<Project, BrigadeError>)
        ensures
            (match r {
                Ok(p) => decoded::<Project>(body@) == Some(p.deep_view()),
                Err(e) => decoded::<Project>(body@) is None && e is Decode,
            }),
    {
        decode_body(body)
    }

    /// The request of `create`: POST on the collection URL, with the
    /// prepared (stamped and cleared) form of `project` as the body.  The
    /// caller's `project` is never mutated; the stamping is visible only in
    /// the transmitted payload.
    pub fn create_request(&self, project: &Project) -> (r: HttpRequest)
        ensures
            r.method == Method::Post,
            r.url@ == collection_url(self.client.base_address@, self.client.url_path@),
            r.auth@ == bearer_of(self.client.token.deep_view()),
            r.query.deep_view() == Seq::<(Seq<char>, Seq<char>)>::empty(),
            r.body.deep_view() == Some(encoded::<Project>(prepared_project(project.deep_view()))),
    {
        let j = project_to_json_prepared(project);
        let chars = json_to_chars(&j);
        let body = string_from_chars(&chars);
        let url = self.client.collection_url_string();
        let mut r = self.client.req(Method::Post, url.as_str(), Option::None);
        r.body = Option::Some(body);
        r
    }

    /// The request of `update`: PUT on the project's own URL (taken from
    /// its metadata), with the prepared form of `project` as the body.
    pub fn update_request(&self, project: &Project) -> (r: HttpRequest)
        ensures
            r.method == Method::Put,
            r.url@ == item_url(
                self.client.base_address@,
                self.client.url_path@,
                project.metadata.id@,
            ),
            r.auth@ == bearer_of(self.client.token.deep_view()),
            r.query.deep_view() == Seq::<(Seq<char>, Seq<char>)>::empty(),
            r.body.deep_view() == Some(encoded::<Project>(prepared_project(project.deep_view()))),
    {
        let j = project_to_json_prepared(project);
        let chars = json_to_chars(&j);
        let body = string_from_chars(&chars);
        let url = self.client.item_url_string(project.metadata.id.as_str());
        let mut r = self.client.req(Method::Put, url.as_str(), Option::None);
        r.body = Option::Some(body);
        r
    }

    /// The request of `delete`: DELETE on the project's URL.  The response
    /// body is discarded without decoding.
    pub fn delete_request(&self, id: &str) -> (r: HttpRequest)
        ensures
            r.method == Method::Delete,
            r.url@ == item_url(self.client.base_address@, self.client.url_path@, id@),
            r.auth@ == bearer_of(self.client.token.deep_view()),
            r.query.deep_view() == Seq::<(Seq<char>, Seq<char>)>::empty(),
            r.body is None,
    {
        self.client.delete_request(id)
    }

    /// The request of `list`: GET on the collection URL with exactly the
    /// pagination parameters that `opts` calls for.  Project listings take
    /// no selector filters.
    pub fn list(&self, sel: Option<ProjectsSelector>, opts: Option<ListOptions>) -> (r:
        HttpRequest)
        ensures
            r.method == Method::Get,
            r.url@ == collection_url(self.client.base_address@, self.client.url_path@),
            r.auth@ == bearer_of(self.client.token.deep_view()),
            r.query.deep_view() == pagination_params(opts.deep_view()),
            r.body is None,
    {
        let _ = sel;
        self.client.list_req(opts)
    }

    /// Decodes the response of a `list` as one page of projects.
    pub fn decode_list(&self, body: &str) -> (r: Result<List<Project>, BrigadeError>)
        ensures
            (match r {
                Ok(l) => decoded::<List<Project>>(body@) == Some(l.deep_view()),
                Err(e) => decoded::<List<Project>>(body@) is None && e is Decode,
            }),
    {
        decode_body(body)
    }
}

} // verus!

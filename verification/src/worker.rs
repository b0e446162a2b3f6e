//! Workers: the per-event execution units, their specification, status and
//! jobs.

use vstd::prelude::*;

use crate::container::{ContainerSpec, ContainerSpecV};
use crate::job::Job;
use crate::json::{Json, JsonV};
use crate::payload::{
    lemma_jv_lookup_append, get_opt_arr, get_opt_bool, get_opt_map, get_opt_payload, get_opt_str, get_opt_strmap,
    get_req_payload, group_lookup_rules, jv_opt_arr, jv_opt_bool, jv_opt_map, jv_opt_payload,
    jv_opt_str, jv_opt_strmap, jv_req_payload, lemma_map_round_trip, lemma_seq_round_trip,
    lemma_strmap_round_trip, opt_arr_field, opt_bool_field, opt_map_field, opt_payload_field,
    opt_str_field, opt_strmap_field, push_opt_arr_field, push_opt_bool_field, push_opt_map_field,
    push_opt_payload_field, push_opt_str_field, push_opt_strmap_field, push_payload_field,
    sfield, Payload,
};
use crate::text::chars_of_str;

verus! {

/// How much the worker logs.
#[derive(Debug, Clone, Copy, PartialEq, Eq, Structural)]
pub enum LogLevel {
    Debug,
    Info,
    Warn,
    Error,
}

impl View for LogLevel {
    type V = LogLevel;

    open spec fn view(&self) -> LogLevel {
        *self
    }
}

impl DeepView for LogLevel {
    type V = LogLevel;

    open spec fn deep_view(&self) -> LogLevel {
        *self
    }
}

impl Payload for LogLevel {
    open spec fn to_jv(v: LogLevel) -> JsonV {
        match v {
            LogLevel::Debug => JsonV::Str("DEBUG"@),
            LogLevel::Info => JsonV::Str("INFO"@),
            LogLevel::Warn => JsonV::Str("WARN"@),
            LogLevel::Error => JsonV::Str("ERROR"@),
        }
    }

    open spec fn of_jv(j: JsonV) -> Option<LogLevel> {
        match j {
            JsonV::Str(s) => if s == "DEBUG"@ {
                Some(LogLevel::Debug)
            } else if s == "INFO"@ {
                Some(LogLevel::Info)
            } else if s == "WARN"@ {
                Some(LogLevel::Warn)
            } else if s == "ERROR"@ {
                Some(LogLevel::Error)
            } else {
                None
            },
            _ => None,
        }
    }

    fn to_json(&self) -> (r: Json) {
        match self {
            LogLevel::Debug => Json::Str(String::from_str("DEBUG")),
            LogLevel::Info => Json::Str(String::from_str("INFO")),
            LogLevel::Warn => Json::Str(String::from_str("WARN")),
            LogLevel::Error => Json::Str(String::from_str("ERROR")),
        }
    }

    fn from_json(j: &Json) -> (r: Option<Self>) {
        match j {
            Json::Str(s) => {
                if *s == String::from_str("DEBUG") {
                    Some(LogLevel::Debug)
                } else if *s == String::from_str("INFO") {
                    Some(LogLevel::Info)
                } else if *s == String::from_str("WARN") {
                    Some(LogLevel::Warn)
                } else if *s == String::from_str("ERROR") {
                    Some(LogLevel::Error)
                } else {
                    None
                }
            },
            _ => None,
        }
    }

    proof fn lemma_round_trip(v: LogLevel) {
        reveal_strlit("DEBUG");
        reveal_strlit("INFO");
        reveal_strlit("WARN");
        reveal_strlit("ERROR");
        assert("DEBUG"@.len() == 5);
        assert("INFO"@.len() == 4);
        assert("WARN"@.len() == 4);
        assert("ERROR"@.len() == 5);
        assert("WARN"@[0] != "INFO"@[0]);
        assert("ERROR"@[0] != "DEBUG"@[0]);
    }
}

/// The lifecycle phase of a worker.
#[derive(Debug, Clone, Copy, PartialEq, Eq, Structural)]
pub enum WorkerPhase {
    Aborted,
    Canceled,
    Failed,
    Pending,
    Running,
    SchedulingFailed,
    Starting,
    Succeeded,
    TimedOut,
    Unknown,
}

impl View for WorkerPhase {
    type V = WorkerPhase;

    open spec fn view(&self) -> WorkerPhase {
        *self
    }
}

impl DeepView for WorkerPhase {
    type V = WorkerPhase;

    open spec fn deep_view(&self) -> WorkerPhase {
        *self
    }
}

/// The wire name of a worker phase.
pub open spec fn worker_phase_name(p: WorkerPhase) -> Seq<char> {
    match p {
        WorkerPhase::Aborted => "ABORTED"@,
        WorkerPhase::Canceled => "CANCELED"@,
        WorkerPhase::Failed => "FAILED"@,
        WorkerPhase::Pending => "PENDING"@,
        WorkerPhase::Running => "RUNNING"@,
        WorkerPhase::SchedulingFailed => "SCHEDULING_FAILED"@,
        WorkerPhase::Starting => "STARTING"@,
        WorkerPhase::Succeeded => "SUCCEEDED"@,
        WorkerPhase::TimedOut => "TIMED_OUT"@,
        WorkerPhase::Unknown => "UNKNOWN"@,
    }
}

/// The ten phase names are pairwise distinct.
proof fn lemma_worker_phase_names_distinct()
    ensures
        "ABORTED"@.len() == 7,
        "CANCELED"@.len() == 8,
        "FAILED"@.len() == 6,
        "PENDING"@.len() == 7,
        "RUNNING"@.len() == 7,
        "SCHEDULING_FAILED"@.len() == 17,
        "STARTING"@.len() == 8,
        "SUCCEEDED"@.len() == 9,
        "TIMED_OUT"@.len() == 9,
        "UNKNOWN"@.len() == 7,
        "PENDING"@ != "ABORTED"@,
        "RUNNING"@ != "ABORTED"@,
        "RUNNING"@ != "PENDING"@,
        "UNKNOWN"@ != "ABORTED"@,
        "UNKNOWN"@ != "PENDING"@,
        "UNKNOWN"@ != "RUNNING"@,
        "STARTING"@ != "CANCELED"@,
        "TIMED_OUT"@ != "SUCCEEDED"@,
{
    reveal_strlit("ABORTED");
    reveal_strlit("CANCELED");
    reveal_strlit("FAILED");
    reveal_strlit("PENDING");
    reveal_strlit("RUNNING");
    reveal_strlit("SCHEDULING_FAILED");
    reveal_strlit("STARTING");
    reveal_strlit("SUCCEEDED");
    reveal_strlit("TIMED_OUT");
    reveal_strlit("UNKNOWN");
    assert("PENDING"@[0] != "ABORTED"@[0]);
    assert("RUNNING"@[0] != "ABORTED"@[0]);
    assert("RUNNING"@[0] != "PENDING"@[0]);
    assert("UNKNOWN"@[0] != "ABORTED"@[0]);
    assert("UNKNOWN"@[0] != "PENDING"@[0]);
    assert("UNKNOWN"@[0] != "RUNNING"@[0]);
    assert("STARTING"@[0] != "CANCELED"@[0]);
    assert("TIMED_OUT"@[0] != "SUCCEEDED"@[0]);
}

impl Payload for WorkerPhase {
    open spec fn to_jv(v: WorkerPhase) -> JsonV {
        JsonV::Str(worker_phase_name(v))
    }

    open spec fn of_jv(j: JsonV) -> Option<WorkerPhase> {
        match j {
            JsonV::Str(s) => if s == "ABORTED"@ {
                Some(WorkerPhase::Aborted)
            } else if s == "CANCELED"@ {
                Some(WorkerPhase::Canceled)
            } else if s == "FAILED"@ {
                Some(WorkerPhase::Failed)
            } else if s == "PENDING"@ {
                Some(WorkerPhase::Pending)
            } else if s == "RUNNING"@ {
                Some(WorkerPhase::Running)
            } else if s == "SCHEDULING_FAILED"@ {
                Some(WorkerPhase::SchedulingFailed)
            } else if s == "STARTING"@ {
                Some(WorkerPhase::Starting)
            } else if s == "SUCCEEDED"@ {
                Some(WorkerPhase::Succeeded)
            } else if s == "TIMED_OUT"@ {
                Some(WorkerPhase::TimedOut)
            } else if s == "UNKNOWN"@ {
                Some(WorkerPhase::Unknown)
            } else {
                None
            },
            _ => None,
        }
    }

    fn to_json(&self) -> (r: Json) {
        Json::Str(self.as_query_param())
    }

    fn from_json(j: &Json) -> (r: Option<Self>) {
        match j {
            Json::Str(s) => {
                if *s == String::from_str("ABORTED") {
                    Some(WorkerPhase::Aborted)
                } else if *s == String::from_str("CANCELED") {
                    Some(WorkerPhase::Canceled)
                } else if *s == String::from_str("FAILED") {
                    Some(WorkerPhase::Failed)
                } else if *s == String::from_str("PENDING") {
                    Some(WorkerPhase::Pending)
                } else if *s == String::from_str("RUNNING") {
                    Some(WorkerPhase::Running)
                } else if *s == String::from_str("SCHEDULING_FAILED") {
                    Some(WorkerPhase::SchedulingFailed)
                } else if *s == String::from_str("STARTING") {
                    Some(WorkerPhase::Starting)
                } else if *s == String::from_str("SUCCEEDED") {
                    Some(WorkerPhase::Succeeded)
                } else if *s == String::from_str("TIMED_OUT") {
                    Some(WorkerPhase::TimedOut)
                } else if *s == String::from_str("UNKNOWN") {
                    Some(WorkerPhase::Unknown)
                } else {
                    None
                }
            },
            _ => None,
        }
    }

    proof fn lemma_round_trip(v: WorkerPhase) {
        lemma_worker_phase_names_distinct();
    }
}

/// The comma-separated names of the phases from position `k` on.
pub open spec fn phases_query(ps: Seq<WorkerPhase>, k: int) -> Seq<char>
    decreases ps.len() - k,
{
    if k < 0 || k >= ps.len() {
        Seq::empty()
    } else if k == ps.len() - 1 {
        worker_phase_name(ps[k])
    } else {
        worker_phase_name(ps[k]) + seq![','] + phases_query(ps, k + 1)
    }
}

impl WorkerPhase {
    /// The wire name of this phase.
    pub fn as_query_param(&self) -> (r: String)
        ensures
            r@ == worker_phase_name(*self),
    {
        match self {
            WorkerPhase::Aborted => String::from_str("ABORTED"),
            WorkerPhase::Canceled => String::from_str("CANCELED"),
            WorkerPhase::Failed => String::from_str("FAILED"),
            WorkerPhase::Pending => String::from_str("PENDING"),
            WorkerPhase::Running => String::from_str("RUNNING"),
            WorkerPhase::SchedulingFailed => String::from_str("SCHEDULING_FAILED"),
            WorkerPhase::Starting => String::from_str("STARTING"),
            WorkerPhase::Succeeded => String::from_str("SUCCEEDED"),
            WorkerPhase::TimedOut => String::from_str("TIMED_OUT"),
            WorkerPhase::Unknown => String::from_str("UNKNOWN"),
        }
    }

    /// The comma-joined query value of a list of phases, for the
    /// `workerPhases` filter of an event listing.
    pub fn vec_to_query_param(vec: Vec<WorkerPhase>) -> (r: String)
        ensures
            r@ == phases_query(vec@, 0),
    {
        let mut out: Vec<char> = Vec::new();
        let mut k: usize = 0;
        while k < vec.len()
            invariant
                k <= vec@.len(),
                out@ + (if k == vec@.len() {
                    Seq::<char>::empty()
                } else {
                    (if k > 0 {
                        seq![',']
                    } else {
                        Seq::<char>::empty()
                    }) + phases_query(vec@, k as int)
                }) == phases_query(vec@, 0),
            decreases vec@.len() - k,
        {
            if k > 0 {
                out.push(',');
            }
            let name = vec[k].as_query_param();
            let mut cs = chars_of_str(name.as_str());
            out.append(&mut cs);
            k = k + 1;
            proof {
                if k == vec@.len() {
                    assert(out@ + Seq::<char>::empty() =~= phases_query(vec@, 0));
                } else {
                    assert(out@ + (seq![','] + phases_query(vec@, k as int)) =~= phases_query(
                        vec@,
                        0,
                    ));
                }
            }
        }
        proof {
            if vec@.len() == 0 {
                assert(out@ + Seq::<char>::empty() =~= phases_query(vec@, 0));
            }
            assert(out@ =~= phases_query(vec@, 0));
        }
        crate::text::string_from_chars(&out)
    }
}

/// How a worker clones the event's source repository.
#[derive(Debug, Clone, PartialEq)]
pub struct GitConfig {
    pub clone_url: Option<String>,
    pub commit: Option<String>,
    pub reference: Option<String>,
    pub init_submodules: Option<bool>,
}

/// The mathematical model of a [`GitConfig`].
pub struct GitConfigV {
    pub clone_url: Option<Seq<char>>,
    pub commit: Option<Seq<char>>,
    pub reference: Option<Seq<char>>,
    pub init_submodules: Option<bool>,
}

impl View for GitConfig {
    type V = GitConfigV;

    open spec fn view(&self) -> GitConfigV {
        GitConfigV {
            clone_url: self.clone_url.deep_view(),
            commit: self.commit.deep_view(),
            reference: self.reference.deep_view(),
            init_submodules: self.init_submodules,
        }
    }
}

impl DeepView for GitConfig {
    type V = GitConfigV;

    open spec fn deep_view(&self) -> GitConfigV {
        self.view()
    }
}

impl Payload for GitConfig {
    open spec fn to_jv(v: GitConfigV) -> JsonV {
        JsonV::Obj(
            opt_str_field("cloneURL"@, v.clone_url) + opt_str_field("commit"@, v.commit)
                + opt_str_field("ref"@, v.reference) + opt_bool_field(
                "initSubmodules"@,
                v.init_submodules,
            ),
        )
    }

    open spec fn of_jv(j: JsonV) -> Option<GitConfigV> {
        match j {
            JsonV::Obj(m) => match (
                jv_opt_str(m, "cloneURL"@),
                jv_opt_str(m, "commit"@),
                jv_opt_str(m, "ref"@),
                jv_opt_bool(m, "initSubmodules"@),
            ) {
                (Some(clone_url), Some(commit), Some(reference), Some(init_submodules)) => Some(
                    GitConfigV { clone_url, commit, reference, init_submodules },
                ),
                _ => None,
            },
            _ => None,
        }
    }

    fn to_json(&self) -> (r: Json) {
        let mut out: Vec<(String, Json)> = Vec::new();
        push_opt_str_field(&mut out, "cloneURL", &self.clone_url);
        push_opt_str_field(&mut out, "commit", &self.commit);
        push_opt_str_field(&mut out, "ref", &self.reference);
        push_opt_bool_field(&mut out, "initSubmodules", self.init_submodules);
        proof {
            crate::json::lemma_json_v_obj(out);
            assert(crate::json::obj_v(Seq::<(String, Json)>::empty()) + opt_str_field(
                "cloneURL"@,
                self.clone_url.deep_view(),
            ) + opt_str_field("commit"@, self.commit.deep_view()) + opt_str_field(
                "ref"@,
                self.reference.deep_view(),
            ) + opt_bool_field("initSubmodules"@, self.init_submodules) =~= opt_str_field(
                "cloneURL"@,
                self.clone_url.deep_view(),
            ) + opt_str_field("commit"@, self.commit.deep_view()) + opt_str_field(
                "ref"@,
                self.reference.deep_view(),
            ) + opt_bool_field("initSubmodules"@, self.init_submodules));
        }
        Json::Obj(out)
    }

    fn from_json(j: &Json) -> (r: Option<Self>) {
        match j {
            Json::Obj(fields) => {
                proof {
                    assert(*j == Json::Obj(*fields));
                    crate::json::lemma_json_v_obj(*fields);
                }
                match (
                    get_opt_str(fields, "cloneURL"),
                    get_opt_str(fields, "commit"),
                    get_opt_str(fields, "ref"),
                    get_opt_bool(fields, "initSubmodules"),
                ) {
                    (
                        Option::Some(clone_url),
                        Option::Some(commit),
                        Option::Some(reference),
                        Option::Some(init_submodules),
                    ) => Some(GitConfig { clone_url, commit, reference, init_submodules }),
                    _ => None,
                }
            },
            _ => None,
        }
    }

    proof fn lemma_round_trip(v: GitConfigV) {
        broadcast use group_lookup_rules;

        reveal_strlit("cloneURL");
        reveal_strlit("commit");
        reveal_strlit("ref");
        reveal_strlit("initSubmodules");
        assert("cloneURL"@.len() == 8);
        assert("commit"@.len() == 6);
        assert("ref"@.len() == 3);
        assert("initSubmodules"@.len() == 14);
        let m = opt_str_field("cloneURL"@, v.clone_url) + opt_str_field("commit"@, v.commit)
            + opt_str_field("ref"@, v.reference) + opt_bool_field(
            "initSubmodules"@,
            v.init_submodules,
        );
        assert(Self::to_jv(v) == JsonV::Obj(m));
        assert(jv_opt_str(m, "cloneURL"@) == Some(v.clone_url));
        assert(jv_opt_str(m, "commit"@) == Some(v.commit));
        assert(jv_opt_str(m, "ref"@) == Some(v.reference));
        assert(jv_opt_bool(m, "initSubmodules"@) == Some(v.init_submodules));
    }
}

/// Cluster-level settings of a worker.
#[derive(Debug, Clone, PartialEq)]
pub struct KubernetesConfig {
    pub image_pull_secrets: Option<Vec<String>>,
}

/// The mathematical model of a [`KubernetesConfig`].
pub struct KubernetesConfigV {
    pub image_pull_secrets: Option<Seq<Seq<char>>>,
}

impl View for KubernetesConfig {
    type V = KubernetesConfigV;

    open spec fn view(&self) -> KubernetesConfigV {
        KubernetesConfigV { image_pull_secrets: self.image_pull_secrets.deep_view() }
    }
}

impl DeepView for KubernetesConfig {
    type V = KubernetesConfigV;

    open spec fn deep_view(&self) -> KubernetesConfigV {
        self.view()
    }
}

impl Payload for KubernetesConfig {
    open spec fn to_jv(v: KubernetesConfigV) -> JsonV {
        JsonV::Obj(opt_arr_field::<String>("imagePullSecrets"@, v.image_pull_secrets))
    }

    open spec fn of_jv(j: JsonV) -> Option<KubernetesConfigV> {
        match j {
            JsonV::Obj(m) => match jv_opt_arr::<String>(m, "imagePullSecrets"@) {
                Some(image_pull_secrets) => Some(KubernetesConfigV { image_pull_secrets }),
                _ => None,
            },
            _ => None,
        }
    }

    fn to_json(&self) -> (r: Json) {
        let mut out: Vec<(String, Json)> = Vec::new();
        push_opt_arr_field::<String>(&mut out, "imagePullSecrets", &self.image_pull_secrets);
        proof {
            crate::json::lemma_json_v_obj(out);
            assert(crate::json::obj_v(Seq::<(String, Json)>::empty()) + opt_arr_field::<String>(
                "imagePullSecrets"@,
                self.image_pull_secrets.deep_view(),
            ) =~= opt_arr_field::<String>(
                "imagePullSecrets"@,
                self.image_pull_secrets.deep_view(),
            ));
        }
        Json::Obj(out)
    }

    fn from_json(j: &Json) -> (r: Option<Self>) {
        match j {
            Json::Obj(fields) => {
                proof {
                    assert(*j == Json::Obj(*fields));
                    crate::json::lemma_json_v_obj(*fields);
                }
                match get_opt_arr::<String>(fields, "imagePullSecrets") {
                    Option::Some(image_pull_secrets) => Some(
                        KubernetesConfig { image_pull_secrets },
                    ),
                    _ => None,
                }
            },
            _ => None,
        }
    }

    proof fn lemma_round_trip(v: KubernetesConfigV) {
        broadcast use group_lookup_rules;

        reveal_strlit("imagePullSecrets");
        let m = opt_arr_field::<String>("imagePullSecrets"@, v.image_pull_secrets);
        assert(Self::to_jv(v) == JsonV::Obj(m));
        match v.image_pull_secrets {
            Some(ss) => {
                lemma_seq_round_trip::<String>(ss);
                assert(jv_opt_arr::<String>(m, "imagePullSecrets"@) == Some(Some(ss)));
            },
            None => {
            },
        }
    }
}

/// What a worker may grant the jobs it spawns.
#[derive(Debug, Clone, PartialEq)]
pub struct JobPolicies {
    pub allow_provileged: Option<bool>,
    pub allow_docker_soecket_mount: Option<bool>,
}

/// The mathematical model of a [`JobPolicies`].
pub struct JobPoliciesV {
    pub allow_provileged: Option<bool>,
    pub allow_docker_soecket_mount: Option<bool>,
}

impl View for JobPolicies {
    type V = JobPoliciesV;

    open spec fn view(&self) -> JobPoliciesV {
        JobPoliciesV {
            allow_provileged: self.allow_provileged,
            allow_docker_soecket_mount: self.allow_docker_soecket_mount,
        }
    }
}

impl DeepView for JobPolicies {
    type V = JobPoliciesV;

    open spec fn deep_view(&self) -> JobPoliciesV {
        self.view()
    }
}

impl Payload for JobPolicies {
    open spec fn to_jv(v: JobPoliciesV) -> JsonV {
        JsonV::Obj(
            opt_bool_field("allowProvileged"@, v.allow_provileged) + opt_bool_field(
                "allowDockerSoecketMount"@,
                v.allow_docker_soecket_mount,
            ),
        )
    }

    open spec fn of_jv(j: JsonV) -> Option<JobPoliciesV> {
        match j {
            JsonV::Obj(m) => match (
                jv_opt_bool(m, "allowProvileged"@),
                jv_opt_bool(m, "allowDockerSoecketMount"@),
            ) {
                (Some(allow_provileged), Some(allow_docker_soecket_mount)) => Some(
                    JobPoliciesV { allow_provileged, allow_docker_soecket_mount },
                ),
                _ => None,
            },
            _ => None,
        }
    }

    fn to_json(&self) -> (r: Json) {
        let mut out: Vec<(String, Json)> = Vec::new();
        push_opt_bool_field(&mut out, "allowProvileged", self.allow_provileged);
        push_opt_bool_field(&mut out, "allowDockerSoecketMount", self.allow_docker_soecket_mount);
        proof {
            crate::json::lemma_json_v_obj(out);
            assert(crate::json::obj_v(Seq::<(String, Json)>::empty()) + opt_bool_field(
                "allowProvileged"@,
                self.allow_provileged,
            ) + opt_bool_field("allowDockerSoecketMount"@, self.allow_docker_soecket_mount)
                =~= opt_bool_field("allowProvileged"@, self.allow_provileged) + opt_bool_field(
                "allowDockerSoecketMount"@,
                self.allow_docker_soecket_mount,
            ));
        }
        Json::Obj(out)
    }

    fn from_json(j: &Json) -> (r: Option<Self>) {
        match j {
            Json::Obj(fields) => {
                proof {
                    assert(*j == Json::Obj(*fields));
                    crate::json::lemma_json_v_obj(*fields);
                }
                match (
                    get_opt_bool(fields, "allowProvileged"),
                    get_opt_bool(fields, "allowDockerSoecketMount"),
                ) {
                    (Option::Some(allow_provileged), Option::Some(allow_docker_soecket_mount)) =>
                        Some(JobPolicies { allow_provileged, allow_docker_soecket_mount }),
                    _ => None,
                }
            },
            _ => None,
        }
    }

    proof fn lemma_round_trip(v: JobPoliciesV) {
        broadcast use group_lookup_rules;

        reveal_strlit("allowProvileged");
        reveal_strlit("allowDockerSoecketMount");
        assert("allowProvileged"@.len() == 15);
        assert("allowDockerSoecketMount"@.len() == 23);
        let m = opt_bool_field("allowProvileged"@, v.allow_provileged) + opt_bool_field(
            "allowDockerSoecketMount"@,
            v.allow_docker_soecket_mount,
        );
        assert(Self::to_jv(v) == JsonV::Obj(m));
        assert(jv_opt_bool(m, "allowProvileged"@) == Some(v.allow_provileged));
        assert(jv_opt_bool(m, "allowDockerSoecketMount"@) == Some(v.allow_docker_soecket_mount));
    }
}

/// How far a worker has come and when it ran.
#[derive(Debug, Clone, PartialEq)]
pub struct WorkerStatus {
    pub started: Option<String>,
    pub ended: Option<String>,
    pub phase: Option<WorkerPhase>,
}

/// The mathematical model of a [`WorkerStatus`].
pub struct WorkerStatusV {
    pub started: Option<Seq<char>>,
    pub ended: Option<Seq<char>>,
    pub phase: Option<WorkerPhase>,
}

impl View for WorkerStatus {
    type V = WorkerStatusV;

    open spec fn view(&self) -> WorkerStatusV {
        WorkerStatusV {
            started: self.started.deep_view(),
            ended: self.ended.deep_view(),
            phase: self.phase,
        }
    }
}

impl DeepView for WorkerStatus {
    type V = WorkerStatusV;

    open spec fn deep_view(&self) -> WorkerStatusV {
        self.view()
    }
}

impl Payload for WorkerStatus {
    open spec fn to_jv(v: WorkerStatusV) -> JsonV {
        JsonV::Obj(
            opt_str_field("started"@, v.started) + opt_str_field("ended"@, v.ended)
                + opt_payload_field::<WorkerPhase>("phase"@, v.phase),
        )
    }

    open spec fn of_jv(j: JsonV) -> Option<WorkerStatusV> {
        match j {
            JsonV::Obj(m) => match (
                jv_opt_str(m, "started"@),
                jv_opt_str(m, "ended"@),
                jv_opt_payload::<WorkerPhase>(m, "phase"@),
            ) {
                (Some(started), Some(ended), Some(phase)) => Some(
                    WorkerStatusV { started, ended, phase },
                ),
                _ => None,
            },
            _ => None,
        }
    }

    fn to_json(&self) -> (r: Json) {
        let mut out: Vec<(String, Json)> = Vec::new();
        push_opt_str_field(&mut out, "started", &self.started);
        push_opt_str_field(&mut out, "ended", &self.ended);
        push_opt_payload_field::<WorkerPhase>(&mut out, "phase", &self.phase);
        proof {
            crate::json::lemma_json_v_obj(out);
            assert(crate::json::obj_v(Seq::<(String, Json)>::empty()) + opt_str_field(
                "started"@,
                self.started.deep_view(),
            ) + opt_str_field("ended"@, self.ended.deep_view()) + opt_payload_field::<WorkerPhase>(
                "phase"@,
                self.phase,
            ) =~= opt_str_field("started"@, self.started.deep_view()) + opt_str_field(
                "ended"@,
                self.ended.deep_view(),
            ) + opt_payload_field::<WorkerPhase>("phase"@, self.phase));
        }
        Json::Obj(out)
    }

    fn from_json(j: &Json) -> (r: Option<Self>) {
        match j {
            Json::Obj(fields) => {
                proof {
                    assert(*j == Json::Obj(*fields));
                    crate::json::lemma_json_v_obj(*fields);
                }
                match (
                    get_opt_str(fields, "started"),
                    get_opt_str(fields, "ended"),
                    get_opt_payload::<WorkerPhase>(fields, "phase"),
                ) {
                    (Option::Some(started), Option::Some(ended), Option::Some(phase)) => Some(
                        WorkerStatus { started, ended, phase },
                    ),
                    _ => None,
                }
            },
            _ => None,
        }
    }

    proof fn lemma_round_trip(v: WorkerStatusV) {
        broadcast use group_lookup_rules;

        reveal_strlit("started");
        reveal_strlit("ended");
        reveal_strlit("phase");
        assert("started"@.len() == 7);
        assert("ended"@.len() == 5);
        assert("phase"@.len() == 5);
        assert("phase"@[0] != "ended"@[0]);
        let m = opt_str_field("started"@, v.started) + opt_str_field("ended"@, v.ended)
            + opt_payload_field::<WorkerPhase>("phase"@, v.phase);
        assert(Self::to_jv(v) == JsonV::Obj(m));
        assert(jv_opt_str(m, "started"@) == Some(v.started));
        assert(jv_opt_str(m, "ended"@) == Some(v.ended));
        match v.phase {
            Some(p) => {
                <WorkerPhase as Payload>::lemma_round_trip(p);
                assert(!(<WorkerPhase as Payload>::to_jv(p) is Null));
                assert(jv_opt_payload::<WorkerPhase>(m, "phase"@) == Some(Some(p)));
            },
            None => {
                assert(jv_opt_payload::<WorkerPhase>(m, "phase"@) == Some(
                    Option::<WorkerPhase>::None,
                ));
            },
        }
    }
}

/// How the worker of an event runs: its container, workspace, source
/// configuration and job policies.
#[derive(Debug, Clone, PartialEq)]
pub struct WorkerSpec {
    pub container: Option<ContainerSpec>,
    pub use_workspace: Option<bool>,
    pub workspace_size: Option<String>,
    pub git: Option<GitConfig>,
    pub kubernetes: Option<KubernetesConfig>,
    pub job_policies: Option<JobPolicies>,
    pub log_level: Option<LogLevel>,
    pub config_files_directory: Option<String>,
    pub default_config_files: Option<Vec<(String, String)>>,
}

/// The mathematical model of a [`WorkerSpec`].
pub struct WorkerSpecV {
    pub container: Option<ContainerSpecV>,
    pub use_workspace: Option<bool>,
    pub workspace_size: Option<Seq<char>>,
    pub git: Option<GitConfigV>,
    pub kubernetes: Option<KubernetesConfigV>,
    pub job_policies: Option<JobPoliciesV>,
    pub log_level: Option<LogLevel>,
    pub config_files_directory: Option<Seq<char>>,
    pub default_config_files: Option<Seq<(Seq<char>, Seq<char>)>>,
}

impl View for WorkerSpec {
    type V = WorkerSpecV;

    open spec fn view(&self) -> WorkerSpecV {
        WorkerSpecV {
            container: self.container.deep_view(),
            use_workspace: self.use_workspace,
            workspace_size: self.workspace_size.deep_view(),
            git: self.git.deep_view(),
            kubernetes: self.kubernetes.deep_view(),
            job_policies: self.job_policies.deep_view(),
            log_level: self.log_level,
            config_files_directory: self.config_files_directory.deep_view(),
            default_config_files: self.default_config_files.deep_view(),
        }
    }
}

impl DeepView for WorkerSpec {
    type V = WorkerSpecV;

    open spec fn deep_view(&self) -> WorkerSpecV {
        self.view()
    }
}

impl WorkerSpec {
    /// A worker specification that carries one default configuration file,
    /// `brigade.js`, holding `script`, and leaves everything else unset.
    pub fn new(script: String) -> (r: Self)
        ensures
            r@ == (WorkerSpecV {
                container: None,
                use_workspace: None,
                workspace_size: None,
                git: None,
                kubernetes: None,
                job_policies: None,
                log_level: None,
                config_files_directory: None,
                default_config_files: Some(seq![("brigade.js"@, script@)]),
            }),
    {
        let mut default_config_files: Vec<(String, String)> = Vec::new();
        default_config_files.push((String::from_str("brigade.js"), script));
        let r = WorkerSpec {
            container: Option::None,
            use_workspace: Option::None,
            workspace_size: Option::None,
            git: Option::None,
            kubernetes: Option::None,
            job_policies: Option::None,
            log_level: Option::None,
            config_files_directory: Option::None,
            default_config_files: Option::Some(default_config_files),
        };
        proof {
            assert(r.default_config_files.deep_view()->0 =~= seq![("brigade.js"@, r.default_config_files->0@[0].1@)]);
        }
        r
    }
}

impl Payload for WorkerSpec {
    open spec fn to_jv(v: WorkerSpecV) -> JsonV {
        JsonV::Obj(
            opt_payload_field::<ContainerSpec>("container"@, v.container) + opt_bool_field(
                "useWorkspace"@,
                v.use_workspace,
            ) + opt_str_field("workspaceSize"@, v.workspace_size) + opt_payload_field::<GitConfig>(
                "git"@,
                v.git,
            ) + opt_payload_field::<KubernetesConfig>("kubernetes"@, v.kubernetes)
                + opt_payload_field::<JobPolicies>("jobPolicies"@, v.job_policies)
                + opt_payload_field::<LogLevel>("logLevel"@, v.log_level) + opt_str_field(
                "configFilesDirectory"@,
                v.config_files_directory,
            ) + opt_strmap_field("defaultConfigFiles"@, v.default_config_files),
        )
    }

    open spec fn of_jv(j: JsonV) -> Option<WorkerSpecV> {
        match j {
            JsonV::Obj(m) => match (
                jv_opt_payload::<ContainerSpec>(m, "container"@),
                jv_opt_bool(m, "useWorkspace"@),
                jv_opt_str(m, "workspaceSize"@),
                jv_opt_payload::<GitConfig>(m, "git"@),
                jv_opt_payload::<KubernetesConfig>(m, "kubernetes"@),
                jv_opt_payload::<JobPolicies>(m, "jobPolicies"@),
                jv_opt_payload::<LogLevel>(m, "logLevel"@),
                jv_opt_str(m, "configFilesDirectory"@),
                jv_opt_strmap(m, "defaultConfigFiles"@),
            ) {
                (
                    Some(container),
                    Some(use_workspace),
                    Some(workspace_size),
                    Some(git),
                    Some(kubernetes),
                    Some(job_policies),
                    Some(log_level),
                    Some(config_files_directory),
                    Some(default_config_files),
                ) => Some(
                    WorkerSpecV {
                        container,
                        use_workspace,
                        workspace_size,
                        git,
                        kubernetes,
                        job_policies,
                        log_level,
                        config_files_directory,
                        default_config_files,
                    },
                ),
                _ => None,
            },
            _ => None,
        }
    }

    fn to_json(&self) -> (r: Json) {
        let mut out: Vec<(String, Json)> = Vec::new();
        push_opt_payload_field::<ContainerSpec>(&mut out, "container", &self.container);
        push_opt_bool_field(&mut out, "useWorkspace", self.use_workspace);
        push_opt_str_field(&mut out, "workspaceSize", &self.workspace_size);
        push_opt_payload_field::<GitConfig>(&mut out, "git", &self.git);
        push_opt_payload_field::<KubernetesConfig>(&mut out, "kubernetes", &self.kubernetes);
        push_opt_payload_field::<JobPolicies>(&mut out, "jobPolicies", &self.job_policies);
        push_opt_payload_field::<LogLevel>(&mut out, "logLevel", &self.log_level);
        push_opt_str_field(&mut out, "configFilesDirectory", &self.config_files_directory);
        push_opt_strmap_field(&mut out, "defaultConfigFiles", &self.default_config_files);
        proof {
            crate::json::lemma_json_v_obj(out);
            assert(crate::json::obj_v(Seq::<(String, Json)>::empty()) + opt_payload_field::<
                ContainerSpec,
            >("container"@, self.container.deep_view()) + opt_bool_field(
                "useWorkspace"@,
                self.use_workspace,
            ) + opt_str_field("workspaceSize"@, self.workspace_size.deep_view())
                + opt_payload_field::<GitConfig>("git"@, self.git.deep_view())
                + opt_payload_field::<KubernetesConfig>("kubernetes"@, self.kubernetes.deep_view())
                + opt_payload_field::<JobPolicies>("jobPolicies"@, self.job_policies.deep_view())
                + opt_payload_field::<LogLevel>("logLevel"@, self.log_level) + opt_str_field(
                "configFilesDirectory"@,
                self.config_files_directory.deep_view(),
            ) + opt_strmap_field("defaultConfigFiles"@, self.default_config_files.deep_view())
                =~= opt_payload_field::<ContainerSpec>("container"@, self.container.deep_view())
                + opt_bool_field("useWorkspace"@, self.use_workspace) + opt_str_field(
                "workspaceSize"@,
                self.workspace_size.deep_view(),
            ) + opt_payload_field::<GitConfig>("git"@, self.git.deep_view()) + opt_payload_field::<
                KubernetesConfig,
            >("kubernetes"@, self.kubernetes.deep_view()) + opt_payload_field::<JobPolicies>(
                "jobPolicies"@,
                self.job_policies.deep_view(),
            ) + opt_payload_field::<LogLevel>("logLevel"@, self.log_level) + opt_str_field(
                "configFilesDirectory"@,
                self.config_files_directory.deep_view(),
            ) + opt_strmap_field("defaultConfigFiles"@, self.default_config_files.deep_view()));
        }
        Json::Obj(out)
    }

    fn from_json(j: &Json) -> (r: Option<Self>) {
        match j {
            Json::Obj(fields) => {
                proof {
                    assert(*j == Json::Obj(*fields));
                    crate::json::lemma_json_v_obj(*fields);
                }
                match (
                    get_opt_payload::<ContainerSpec>(fields, "container"),
                    get_opt_bool(fields, "useWorkspace"),
                    get_opt_str(fields, "workspaceSize"),
                    get_opt_payload::<GitConfig>(fields, "git"),
                    get_opt_payload::<KubernetesConfig>(fields, "kubernetes"),
                    get_opt_payload::<JobPolicies>(fields, "jobPolicies"),
                    get_opt_payload::<LogLevel>(fields, "logLevel"),
                    get_opt_str(fields, "configFilesDirectory"),
                    get_opt_strmap(fields, "defaultConfigFiles"),
                ) {
                    (
                        Option::Some(container),
                        Option::Some(use_workspace),
                        Option::Some(workspace_size),
                        Option::Some(git),
                        Option::Some(kubernetes),
                        Option::Some(job_policies),
                        Option::Some(log_level),
                        Option::Some(config_files_directory),
                        Option::Some(default_config_files),
                    ) => Some(
                        WorkerSpec {
                            container,
                            use_workspace,
                            workspace_size,
                            git,
                            kubernetes,
                            job_policies,
                            log_level,
                            config_files_directory,
                            default_config_files,
                        },
                    ),
                    _ => None,
                }
            },
            _ => None,
        }
    }

    #[verifier::rlimit(100)]
    #[verifier::spinoff_prover]
    proof fn lemma_round_trip(v: WorkerSpecV) {
        broadcast use group_lookup_rules;

        reveal_strlit("container");
        reveal_strlit("useWorkspace");
        reveal_strlit("workspaceSize");
        reveal_strlit("git");
        reveal_strlit("kubernetes");
        reveal_strlit("jobPolicies");
        reveal_strlit("logLevel");
        reveal_strlit("configFilesDirectory");
        reveal_strlit("defaultConfigFiles");
        assert("container"@.len() == 9);
        assert("useWorkspace"@.len() == 12);
        assert("workspaceSize"@.len() == 13);
        assert("git"@.len() == 3);
        assert("kubernetes"@.len() == 10);
        assert("jobPolicies"@.len() == 11);
        assert("logLevel"@.len() == 8);
        assert("configFilesDirectory"@.len() == 20);
        assert("defaultConfigFiles"@.len() == 18);
        let c1 = opt_payload_field::<ContainerSpec>("container"@, v.container);
        let c2 = opt_bool_field("useWorkspace"@, v.use_workspace);
        let c3 = opt_str_field("workspaceSize"@, v.workspace_size);
        let c4 = opt_payload_field::<GitConfig>("git"@, v.git);
        let c5 = opt_payload_field::<KubernetesConfig>("kubernetes"@, v.kubernetes);
        let c6 = opt_payload_field::<JobPolicies>("jobPolicies"@, v.job_policies);
        let c7 = opt_payload_field::<LogLevel>("logLevel"@, v.log_level);
        let c8 = opt_str_field("configFilesDirectory"@, v.config_files_directory);
        let c9 = opt_strmap_field("defaultConfigFiles"@, v.default_config_files);
        let p2 = c1 + c2;
        let p3 = p2 + c3;
        let p4 = p3 + c4;
        let p5 = p4 + c5;
        let p6 = p5 + c6;
        let p7 = p6 + c7;
        let p8 = p7 + c8;
        let p9 = p8 + c9;
        let m = p9;
        assert(Self::to_jv(v) == JsonV::Obj(m));
        lemma_jv_lookup_append(c1, c2, "container"@);
        lemma_jv_lookup_append(p2, c3, "container"@);
        lemma_jv_lookup_append(p3, c4, "container"@);
        lemma_jv_lookup_append(p4, c5, "container"@);
        lemma_jv_lookup_append(p5, c6, "container"@);
        lemma_jv_lookup_append(p6, c7, "container"@);
        lemma_jv_lookup_append(p7, c8, "container"@);
        lemma_jv_lookup_append(p8, c9, "container"@);
        lemma_jv_lookup_append(c1, c2, "useWorkspace"@);
        lemma_jv_lookup_append(p2, c3, "useWorkspace"@);
        lemma_jv_lookup_append(p3, c4, "useWorkspace"@);
        lemma_jv_lookup_append(p4, c5, "useWorkspace"@);
        lemma_jv_lookup_append(p5, c6, "useWorkspace"@);
        lemma_jv_lookup_append(p6, c7, "useWorkspace"@);
        lemma_jv_lookup_append(p7, c8, "useWorkspace"@);
        lemma_jv_lookup_append(p8, c9, "useWorkspace"@);
        lemma_jv_lookup_append(c1, c2, "workspaceSize"@);
        lemma_jv_lookup_append(p2, c3, "workspaceSize"@);
        lemma_jv_lookup_append(p3, c4, "workspaceSize"@);
        lemma_jv_lookup_append(p4, c5, "workspaceSize"@);
        lemma_jv_lookup_append(p5, c6, "workspaceSize"@);
        lemma_jv_lookup_append(p6, c7, "workspaceSize"@);
        lemma_jv_lookup_append(p7, c8, "workspaceSize"@);
        lemma_jv_lookup_append(p8, c9, "workspaceSize"@);
        lemma_jv_lookup_append(c1, c2, "git"@);
        lemma_jv_lookup_append(p2, c3, "git"@);
        lemma_jv_lookup_append(p3, c4, "git"@);
        lemma_jv_lookup_append(p4, c5, "git"@);
        lemma_jv_lookup_append(p5, c6, "git"@);
        lemma_jv_lookup_append(p6, c7, "git"@);
        lemma_jv_lookup_append(p7, c8, "git"@);
        lemma_jv_lookup_append(p8, c9, "git"@);
        lemma_jv_lookup_append(c1, c2, "kubernetes"@);
        lemma_jv_lookup_append(p2, c3, "kubernetes"@);
        lemma_jv_lookup_append(p3, c4, "kubernetes"@);
        lemma_jv_lookup_append(p4, c5, "kubernetes"@);
        lemma_jv_lookup_append(p5, c6, "kubernetes"@);
        lemma_jv_lookup_append(p6, c7, "kubernetes"@);
        lemma_jv_lookup_append(p7, c8, "kubernetes"@);
        lemma_jv_lookup_append(p8, c9, "kubernetes"@);
        lemma_jv_lookup_append(c1, c2, "jobPolicies"@);
        lemma_jv_lookup_append(p2, c3, "jobPolicies"@);
        lemma_jv_lookup_append(p3, c4, "jobPolicies"@);
        lemma_jv_lookup_append(p4, c5, "jobPolicies"@);
        lemma_jv_lookup_append(p5, c6, "jobPolicies"@);
        lemma_jv_lookup_append(p6, c7, "jobPolicies"@);
        lemma_jv_lookup_append(p7, c8, "jobPolicies"@);
        lemma_jv_lookup_append(p8, c9, "jobPolicies"@);
        lemma_jv_lookup_append(c1, c2, "logLevel"@);
        lemma_jv_lookup_append(p2, c3, "logLevel"@);
        lemma_jv_lookup_append(p3, c4, "logLevel"@);
        lemma_jv_lookup_append(p4, c5, "logLevel"@);
        lemma_jv_lookup_append(p5, c6, "logLevel"@);
        lemma_jv_lookup_append(p6, c7, "logLevel"@);
        lemma_jv_lookup_append(p7, c8, "logLevel"@);
        lemma_jv_lookup_append(p8, c9, "logLevel"@);
        lemma_jv_lookup_append(c1, c2, "configFilesDirectory"@);
        lemma_jv_lookup_append(p2, c3, "configFilesDirectory"@);
        lemma_jv_lookup_append(p3, c4, "configFilesDirectory"@);
        lemma_jv_lookup_append(p4, c5, "configFilesDirectory"@);
        lemma_jv_lookup_append(p5, c6, "configFilesDirectory"@);
        lemma_jv_lookup_append(p6, c7, "configFilesDirectory"@);
        lemma_jv_lookup_append(p7, c8, "configFilesDirectory"@);
        lemma_jv_lookup_append(p8, c9, "configFilesDirectory"@);
        lemma_jv_lookup_append(c1, c2, "defaultConfigFiles"@);
        lemma_jv_lookup_append(p2, c3, "defaultConfigFiles"@);
        lemma_jv_lookup_append(p3, c4, "defaultConfigFiles"@);
        lemma_jv_lookup_append(p4, c5, "defaultConfigFiles"@);
        lemma_jv_lookup_append(p5, c6, "defaultConfigFiles"@);
        lemma_jv_lookup_append(p6, c7, "defaultConfigFiles"@);
        lemma_jv_lookup_append(p7, c8, "defaultConfigFiles"@);
        lemma_jv_lookup_append(p8, c9, "defaultConfigFiles"@);
        match v.container {
            Some(c) => {
                <ContainerSpec as Payload>::lemma_round_trip(c);
                assert(!(<ContainerSpec as Payload>::to_jv(c) is Null));
                assert(jv_opt_payload::<ContainerSpec>(m, "container"@) == Some(Some(c)));
            },
            None => {
                assert(jv_opt_payload::<ContainerSpec>(m, "container"@) == Some(
                    Option::<ContainerSpecV>::None,
                ));
            },
        }
        assert(jv_opt_bool(m, "useWorkspace"@) == Some(v.use_workspace));
        assert(jv_opt_str(m, "workspaceSize"@) == Some(v.workspace_size));
        match v.git {
            Some(g) => {
                <GitConfig as Payload>::lemma_round_trip(g);
                assert(!(<GitConfig as Payload>::to_jv(g) is Null));
                assert(jv_opt_payload::<GitConfig>(m, "git"@) == Some(Some(g)));
            },
            None => {
                assert(jv_opt_payload::<GitConfig>(m, "git"@) == Some(
                    Option::<GitConfigV>::None,
                ));
            },
        }
        match v.kubernetes {
            Some(k) => {
                <KubernetesConfig as Payload>::lemma_round_trip(k);
                assert(!(<KubernetesConfig as Payload>::to_jv(k) is Null));
                assert(jv_opt_payload::<KubernetesConfig>(m, "kubernetes"@) == Some(Some(k)));
            },
            None => {
                assert(jv_opt_payload::<KubernetesConfig>(m, "kubernetes"@) == Some(
                    Option::<KubernetesConfigV>::None,
                ));
            },
        }
        match v.job_policies {
            Some(p) => {
                <JobPolicies as Payload>::lemma_round_trip(p);
                assert(!(<JobPolicies as Payload>::to_jv(p) is Null));
                assert(jv_opt_payload::<JobPolicies>(m, "jobPolicies"@) == Some(Some(p)));
            },
            None => {
                assert(jv_opt_payload::<JobPolicies>(m, "jobPolicies"@) == Some(
                    Option::<JobPoliciesV>::None,
                ));
            },
        }
        match v.log_level {
            Some(l) => {
                <LogLevel as Payload>::lemma_round_trip(l);
                assert(!(<LogLevel as Payload>::to_jv(l) is Null));
                assert(jv_opt_payload::<LogLevel>(m, "logLevel"@) == Some(Some(l)));
            },
            None => {
                assert(jv_opt_payload::<LogLevel>(m, "logLevel"@) == Some(
                    Option::<LogLevel>::None,
                ));
            },
        }
        assert(jv_opt_str(m, "configFilesDirectory"@) == Some(v.config_files_directory));
        match v.default_config_files {
            Some(d) => {
                lemma_strmap_round_trip(d);
                assert(jv_opt_strmap(m, "defaultConfigFiles"@) == Some(Some(d)));
            },
            None => {
            },
        }
    }
}

/// One worker: how it runs, how far it has come, and the jobs it fanned
/// out.
#[derive(Debug, Clone, PartialEq)]
pub struct Worker {
    pub spec: WorkerSpec,
    pub status: WorkerStatus,
    pub jobs: Option<Vec<(String, Job)>>,
}

/// The mathematical model of a [`Worker`].
pub struct WorkerV {
    pub spec: WorkerSpecV,
    pub status: WorkerStatusV,
    pub jobs: Option<Seq<(Seq<char>, crate::job::JobV)>>,
}

impl View for Worker {
    type V = WorkerV;

    open spec fn view(&self) -> WorkerV {
        WorkerV { spec: self.spec@, status: self.status@, jobs: self.jobs.deep_view() }
    }
}

impl DeepView for Worker {
    type V = WorkerV;

    open spec fn deep_view(&self) -> WorkerV {
        self.view()
    }
}

impl Payload for Worker {
    open spec fn to_jv(v: WorkerV) -> JsonV {
        JsonV::Obj(
            sfield("spec"@, <WorkerSpec as Payload>::to_jv(v.spec)) + sfield(
                "status"@,
                <WorkerStatus as Payload>::to_jv(v.status),
            ) + opt_map_field::<Job>("jobs"@, v.jobs),
        )
    }

    open spec fn of_jv(j: JsonV) -> Option<WorkerV> {
        match j {
            JsonV::Obj(m) => match (
                jv_req_payload::<WorkerSpec>(m, "spec"@),
                jv_req_payload::<WorkerStatus>(m, "status"@),
                jv_opt_map::<Job>(m, "jobs"@),
            ) {
                (Some(spec), Some(status), Some(jobs)) => Some(WorkerV { spec, status, jobs }),
                _ => None,
            },
            _ => None,
        }
    }

    fn to_json(&self) -> (r: Json) {
        let mut out: Vec<(String, Json)> = Vec::new();
        push_payload_field::<WorkerSpec>(&mut out, "spec", &self.spec);
        push_payload_field::<WorkerStatus>(&mut out, "status", &self.status);
        push_opt_map_field::<Job>(&mut out, "jobs", &self.jobs);
        proof {
            crate::json::lemma_json_v_obj(out);
            assert(crate::json::obj_v(Seq::<(String, Json)>::empty()) + sfield(
                "spec"@,
                <WorkerSpec as Payload>::to_jv(self.spec@),
            ) + sfield("status"@, <WorkerStatus as Payload>::to_jv(self.status@))
                + opt_map_field::<Job>("jobs"@, self.jobs.deep_view()) =~= sfield(
                "spec"@,
                <WorkerSpec as Payload>::to_jv(self.spec@),
            ) + sfield("status"@, <WorkerStatus as Payload>::to_jv(self.status@))
                + opt_map_field::<Job>("jobs"@, self.jobs.deep_view()));
        }
        Json::Obj(out)
    }

    fn from_json(j: &Json) -> (r: Option<Self>) {
        match j {
            Json::Obj(fields) => {
                proof {
                    assert(*j == Json::Obj(*fields));
                    crate::json::lemma_json_v_obj(*fields);
                }
                match (
                    get_req_payload::<WorkerSpec>(fields, "spec"),
                    get_req_payload::<WorkerStatus>(fields, "status"),
                    get_opt_map::<Job>(fields, "jobs"),
                ) {
                    (Option::Some(spec), Option::Some(status), Option::Some(jobs)) => Some(
                        Worker { spec, status, jobs },
                    ),
                    _ => None,
                }
            },
            _ => None,
        }
    }

    proof fn lemma_round_trip(v: WorkerV) {
        broadcast use group_lookup_rules;

        reveal_strlit("spec");
        reveal_strlit("status");
        reveal_strlit("jobs");
        assert("spec"@.len() == 4);
        assert("status"@.len() == 6);
        assert("jobs"@.len() == 4);
        assert("jobs"@[0] != "spec"@[0]);
        let m = sfield("spec"@, <WorkerSpec as Payload>::to_jv(v.spec)) + sfield(
            "status"@,
            <WorkerStatus as Payload>::to_jv(v.status),
        ) + opt_map_field::<Job>("jobs"@, v.jobs);
        assert(Self::to_jv(v) == JsonV::Obj(m));
        <WorkerSpec as Payload>::lemma_round_trip(v.spec);
        assert(jv_req_payload::<WorkerSpec>(m, "spec"@) == Some(v.spec));
        <WorkerStatus as Payload>::lemma_round_trip(v.status);
        assert(jv_req_payload::<WorkerStatus>(m, "status"@) == Some(v.status));
        match v.jobs {
            Some(js) => {
                lemma_map_round_trip::<Job>(js);
                assert(jv_opt_map::<Job>(m, "jobs"@) == Some(Some(js)));
            },
            None => {
            },
        }
    }
}

} // verus!

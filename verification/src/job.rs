//! Jobs: the units of work a worker fans out, with their containers,
//! status and host placement rules.

use vstd::prelude::*;

use crate::container::{
    cs_fields, cs_of, get_cs, is_cs_key, lemma_cs_of_fields, lemma_lookup_cs_fields,
    push_cs_fields, ContainerSpec, ContainerSpecV,
};
use crate::json::{Json, JsonV};
use crate::payload::{
    get_opt_i64, get_opt_bool, get_opt_payload, get_opt_map, get_opt_str, get_opt_strmap,
    get_req_payload, group_lookup_rules, jv_lookup, jv_opt_bool, jv_opt_i64, jv_opt_map,
    jv_opt_payload, jv_opt_str, jv_opt_strmap, jv_req_payload, lemma_map_round_trip,
    lemma_strmap_round_trip, opt_bool_field, opt_i64_field, opt_map_field, opt_payload_field,
    opt_str_field, opt_strmap_field, push_opt_bool_field, push_opt_i64_field, push_opt_map_field,
    push_opt_payload_field, push_opt_str_field, push_opt_strmap_field, push_payload_field,
    sfield, Payload,
};

verus! {

/// The lifecycle phase of a job.
#[derive(Debug, Clone, Copy, PartialEq, Eq, Structural)]
pub enum JobPhase {
    Aborted,
    Failed,
    Pending,
    Running,
    SchedulingFailed,
    Starting,
    Succeeded,
    TimedOut,
    Unknown,
}

impl View for JobPhase {
    type V = JobPhase;

    open spec fn view(&self) -> JobPhase {
        *self
    }
}

impl DeepView for JobPhase {
    type V = JobPhase;

    open spec fn deep_view(&self) -> JobPhase {
        *self
    }
}

/// The wire name of a job phase.
pub open spec fn job_phase_name(p: JobPhase) -> Seq<char> {
    match p {
        JobPhase::Aborted => "ABORTED"@,
        JobPhase::Failed => "FAILED"@,
        JobPhase::Pending => "PENDING"@,
        JobPhase::Running => "RUNNING"@,
        JobPhase::SchedulingFailed => "SCHEDULING_FAILED"@,
        JobPhase::Starting => "STARTING"@,
        JobPhase::Succeeded => "SUCCEEDED"@,
        JobPhase::TimedOut => "TIMED_OUT"@,
        JobPhase::Unknown => "UNKNOWN"@,
    }
}

impl Payload for JobPhase {
    open spec fn to_jv(v: JobPhase) -> JsonV {
        JsonV::Str(job_phase_name(v))
    }

    open spec fn of_jv(j: JsonV) -> Option<JobPhase> {
        match j {
            JsonV::Str(s) => if s == "ABORTED"@ {
                Some(JobPhase::Aborted)
            } else if s == "FAILED"@ {
                Some(JobPhase::Failed)
            } else if s == "PENDING"@ {
                Some(JobPhase::Pending)
            } else if s == "RUNNING"@ {
                Some(JobPhase::Running)
            } else if s == "SCHEDULING_FAILED"@ {
                Some(JobPhase::SchedulingFailed)
            } else if s == "STARTING"@ {
                Some(JobPhase::Starting)
            } else if s == "SUCCEEDED"@ {
                Some(JobPhase::Succeeded)
            } else if s == "TIMED_OUT"@ {
                Some(JobPhase::TimedOut)
            } else if s == "UNKNOWN"@ {
                Some(JobPhase::Unknown)
            } else {
                None
            },
            _ => None,
        }
    }

    fn to_json(&self) -> (r: Json) {
        match self {
            JobPhase::Aborted => Json::Str(String::from_str("ABORTED")),
            JobPhase::Failed => Json::Str(String::from_str("FAILED")),
            JobPhase::Pending => Json::Str(String::from_str("PENDING")),
            JobPhase::Running => Json::Str(String::from_str("RUNNING")),
            JobPhase::SchedulingFailed => Json::Str(String::from_str("SCHEDULING_FAILED")),
            JobPhase::Starting => Json::Str(String::from_str("STARTING")),
            JobPhase::Succeeded => Json::Str(String::from_str("SUCCEEDED")),
            JobPhase::TimedOut => Json::Str(String::from_str("TIMED_OUT")),
            JobPhase::Unknown => Json::Str(String::from_str("UNKNOWN")),
        }
    }

    fn from_json(j: &Json) -> (r: Option<Self>) {
        match j {
            Json::Str(s) => {
                if *s == String::from_str("ABORTED") {
                    Some(JobPhase::Aborted)
                } else if *s == String::from_str("FAILED") {
                    Some(JobPhase::Failed)
                } else if *s == String::from_str("PENDING") {
                    Some(JobPhase::Pending)
                } else if *s == String::from_str("RUNNING") {
                    Some(JobPhase::Running)
                } else if *s == String::from_str("SCHEDULING_FAILED") {
                    Some(JobPhase::SchedulingFailed)
                } else if *s == String::from_str("STARTING") {
                    Some(JobPhase::Starting)
                } else if *s == String::from_str("SUCCEEDED") {
                    Some(JobPhase::Succeeded)
                } else if *s == String::from_str("TIMED_OUT") {
                    Some(JobPhase::TimedOut)
                } else if *s == String::from_str("UNKNOWN") {
                    Some(JobPhase::Unknown)
                } else {
                    None
                }
            },
            _ => None,
        }
    }

    proof fn lemma_round_trip(v: JobPhase) {
        lemma_job_phase_names_distinct();
    }
}

/// The nine phase names are pairwise distinct.
proof fn lemma_job_phase_names_distinct()
    ensures
        "ABORTED"@.len() == 7,
        "FAILED"@.len() == 6,
        "PENDING"@.len() == 7,
        "RUNNING"@.len() == 7,
        "SCHEDULING_FAILED"@.len() == 17,
        "STARTING"@.len() == 8,
        "SUCCEEDED"@.len() == 9,
        "TIMED_OUT"@.len() == 9,
        "UNKNOWN"@.len() == 7,
        "PENDING"@ != "ABORTED"@,
        "RUNNING"@ != "ABORTED"@,
        "RUNNING"@ != "PENDING"@,
        "UNKNOWN"@ != "ABORTED"@,
        "UNKNOWN"@ != "PENDING"@,
        "UNKNOWN"@ != "RUNNING"@,
        "TIMED_OUT"@ != "SUCCEEDED"@,
{
    reveal_strlit("ABORTED");
    reveal_strlit("FAILED");
    reveal_strlit("PENDING");
    reveal_strlit("RUNNING");
    reveal_strlit("SCHEDULING_FAILED");
    reveal_strlit("STARTING");
    reveal_strlit("SUCCEEDED");
    reveal_strlit("TIMED_OUT");
    reveal_strlit("UNKNOWN");
    assert("PENDING"@[0] != "ABORTED"@[0]);
    assert("RUNNING"@[0] != "ABORTED"@[0]);
    assert("RUNNING"@[0] != "PENDING"@[0]);
    assert("UNKNOWN"@[0] != "ABORTED"@[0]);
    assert("UNKNOWN"@[0] != "PENDING"@[0]);
    assert("UNKNOWN"@[0] != "RUNNING"@[0]);
    assert("TIMED_OUT"@[0] != "SUCCEEDED"@[0]);
}

/// When a job ran and how it ended, as far as the server knows.
#[derive(Debug, Clone, PartialEq)]
pub struct JobStatus {
    pub started: Option<String>,
    pub ended: Option<String>,
    pub phase: Option<JobPhase>,
}

/// The mathematical model of a [`JobStatus`].
pub struct JobStatusV {
    pub started: Option<Seq<char>>,
    pub ended: Option<Seq<char>>,
    pub phase: Option<JobPhase>,
}

impl View for JobStatus {
    type V = JobStatusV;

    open spec fn view(&self) -> JobStatusV {
        JobStatusV {
            started: self.started.deep_view(),
            ended: self.ended.deep_view(),
            phase: self.phase,
        }
    }
}

impl DeepView for JobStatus {
    type V = JobStatusV;

    open spec fn deep_view(&self) -> JobStatusV {
        self.view()
    }
}

impl Payload for JobStatus {
    open spec fn to_jv(v: JobStatusV) -> JsonV {
        JsonV::Obj(
            opt_str_field("started"@, v.started) + opt_str_field("ended"@, v.ended)
                + opt_payload_field::<JobPhase>("phase"@, v.phase),
        )
    }

    open spec fn of_jv(j: JsonV) -> Option<JobStatusV> {
        match j {
            JsonV::Obj(m) => match (
                jv_opt_str(m, "started"@),
                jv_opt_str(m, "ended"@),
                jv_opt_payload::<JobPhase>(m, "phase"@),
            ) {
                (Some(started), Some(ended), Some(phase)) => Some(
                    JobStatusV { started, ended, phase },
                ),
                _ => None,
            },
            _ => None,
        }
    }

    fn to_json(&self) -> (r: Json) {
        let mut out: Vec<(String, Json)> = Vec::new();
        push_opt_str_field(&mut out, "started", &self.started);
        push_opt_str_field(&mut out, "ended", &self.ended);
        push_opt_payload_field::<JobPhase>(&mut out, "phase", &self.phase);
        proof {
            crate::json::lemma_json_v_obj(out);
            assert(crate::json::obj_v(Seq::<(String, Json)>::empty()) + opt_str_field(
                "started"@,
                self.started.deep_view(),
            ) + opt_str_field("ended"@, self.ended.deep_view()) + opt_payload_field::<JobPhase>(
                "phase"@,
                self.phase,
            ) =~= opt_str_field("started"@, self.started.deep_view()) + opt_str_field(
                "ended"@,
                self.ended.deep_view(),
            ) + opt_payload_field::<JobPhase>("phase"@, self.phase));
        }
        Json::Obj(out)
    }

    fn from_json(j: &Json) -> (r: Option<Self>) {
        match j {
            Json::Obj(fields) => {
                proof {
                    assert(*j == Json::Obj(*fields));
                    crate::json::lemma_json_v_obj(*fields);
                }
                match (
                    get_opt_str(fields, "started"),
                    get_opt_str(fields, "ended"),
                    get_opt_payload::<JobPhase>(fields, "phase"),
                ) {
                    (Option::Some(started), Option::Some(ended), Option::Some(phase)) => Some(
                        JobStatus { started, ended, phase },
                    ),
                    _ => None,
                }
            },
            _ => None,
        }
    }

    proof fn lemma_round_trip(v: JobStatusV) {
        broadcast use group_lookup_rules;

        reveal_strlit("started");
        reveal_strlit("ended");
        reveal_strlit("phase");
        assert("started"@.len() == 7);
        assert("ended"@.len() == 5);
        assert("phase"@.len() == 5);
        assert("phase"@[0] != "ended"@[0]);
        let m = opt_str_field("started"@, v.started) + opt_str_field("ended"@, v.ended)
            + opt_payload_field::<JobPhase>("phase"@, v.phase);
        assert(Self::to_jv(v) == JsonV::Obj(m));
        assert(jv_opt_str(m, "started"@) == Some(v.started));
        assert(jv_opt_str(m, "ended"@) == Some(v.ended));
        match v.phase {
            Some(p) => {
                <JobPhase as Payload>::lemma_round_trip(p);
                assert(!(<JobPhase as Payload>::to_jv(p) is Null));
                assert(jv_opt_payload::<JobPhase>(m, "phase"@) == Some(Some(p)));
            },
            None => {
                assert(jv_opt_payload::<JobPhase>(m, "phase"@) == Some(
                    Option::<JobPhase>::None,
                ));
            },
        }
    }
}

/// Host placement rules for a job.
#[derive(Debug, Clone, PartialEq)]
pub struct JobHost {
    pub os: Option<String>,
    pub node_selector: Option<Vec<(String, String)>>,
}

/// The mathematical model of a [`JobHost`].
pub struct JobHostV {
    pub os: Option<Seq<char>>,
    pub node_selector: Option<Seq<(Seq<char>, Seq<char>)>>,
}

impl View for JobHost {
    type V = JobHostV;

    open spec fn view(&self) -> JobHostV {
        JobHostV { os: self.os.deep_view(), node_selector: self.node_selector.deep_view() }
    }
}

impl DeepView for JobHost {
    type V = JobHostV;

    open spec fn deep_view(&self) -> JobHostV {
        self.view()
    }
}

impl Payload for JobHost {
    open spec fn to_jv(v: JobHostV) -> JsonV {
        JsonV::Obj(
            opt_str_field("os"@, v.os) + opt_strmap_field("nodeSelector"@, v.node_selector),
        )
    }

    open spec fn of_jv(j: JsonV) -> Option<JobHostV> {
        match j {
            JsonV::Obj(m) => match (jv_opt_str(m, "os"@), jv_opt_strmap(m, "nodeSelector"@)) {
                (Some(os), Some(node_selector)) => Some(JobHostV { os, node_selector }),
                _ => None,
            },
            _ => None,
        }
    }

    fn to_json(&self) -> (r: Json) {
        let mut out: Vec<(String, Json)> = Vec::new();
        push_opt_str_field(&mut out, "os", &self.os);
        push_opt_strmap_field(&mut out, "nodeSelector", &self.node_selector);
        proof {
            crate::json::lemma_json_v_obj(out);
            assert(crate::json::obj_v(Seq::<(String, Json)>::empty()) + opt_str_field(
                "os"@,
                self.os.deep_view(),
            ) + opt_strmap_field("nodeSelector"@, self.node_selector.deep_view())
                =~= opt_str_field("os"@, self.os.deep_view()) + opt_strmap_field(
                "nodeSelector"@,
                self.node_selector.deep_view(),
            ));
        }
        Json::Obj(out)
    }

    fn from_json(j: &Json) -> (r: Option<Self>) {
        match j {
            Json::Obj(fields) => {
                proof {
                    assert(*j == Json::Obj(*fields));
                    crate::json::lemma_json_v_obj(*fields);
                }
                match (get_opt_str(fields, "os"), get_opt_strmap(fields, "nodeSelector")) {
                    (Option::Some(os), Option::Some(node_selector)) => Some(
                        JobHost { os, node_selector },
                    ),
                    _ => None,
                }
            },
            _ => None,
        }
    }

    proof fn lemma_round_trip(v: JobHostV) {
        broadcast use group_lookup_rules;

        reveal_strlit("os");
        reveal_strlit("nodeSelector");
        assert("os"@.len() == 2);
        assert("nodeSelector"@.len() == 12);
        let m = opt_str_field("os"@, v.os) + opt_strmap_field("nodeSelector"@, v.node_selector);
        assert(Self::to_jv(v) == JsonV::Obj(m));
        assert(jv_opt_str(m, "os"@) == Some(v.os));
        match v.node_selector {
            Some(ns) => {
                lemma_strmap_round_trip(ns);
                assert(jv_opt_strmap(m, "nodeSelector"@) == Some(Some(ns)));
            },
            None => {
            },
        }
    }
}

/// One job container: the shared container specification plus the
/// job-specific mount and privilege settings.
#[derive(Debug, Clone, PartialEq)]
pub struct JobContainerSpec {
    pub container_spec: ContainerSpec,
    pub working_directory: Option<String>,
    pub workspace_mount_path: Option<String>,
    pub source_mount_path: Option<String>,
    pub privileged: Option<bool>,
    pub use_host_docker_socket: Option<bool>,
}

/// The mathematical model of a [`JobContainerSpec`].
pub struct JobContainerSpecV {
    pub container_spec: ContainerSpecV,
    pub working_directory: Option<Seq<char>>,
    pub workspace_mount_path: Option<Seq<char>>,
    pub source_mount_path: Option<Seq<char>>,
    pub privileged: Option<bool>,
    pub use_host_docker_socket: Option<bool>,
}

impl View for JobContainerSpec {
    type V = JobContainerSpecV;

    open spec fn view(&self) -> JobContainerSpecV {
        JobContainerSpecV {
            container_spec: self.container_spec@,
            working_directory: self.working_directory.deep_view(),
            workspace_mount_path: self.workspace_mount_path.deep_view(),
            source_mount_path: self.source_mount_path.deep_view(),
            privileged: self.privileged,
            use_host_docker_socket: self.use_host_docker_socket,
        }
    }
}

impl DeepView for JobContainerSpec {
    type V = JobContainerSpecV;

    open spec fn deep_view(&self) -> JobContainerSpecV {
        self.view()
    }
}

/// The members specific to a job container, beside the flattened container
/// specification.
pub open spec fn jcs_own_fields(v: JobContainerSpecV) -> Seq<(Seq<char>, JsonV)> {
    opt_str_field("workingDirectory"@, v.working_directory) + opt_str_field(
        "workspaceMountPath"@,
        v.workspace_mount_path,
    ) + opt_str_field("sourceMountPath"@, v.source_mount_path) + opt_bool_field(
        "privileged"@,
        v.privileged,
    ) + opt_bool_field("useHostDockerSocket"@, v.use_host_docker_socket)
}

impl Payload for JobContainerSpec {
    open spec fn to_jv(v: JobContainerSpecV) -> JsonV {
        JsonV::Obj(cs_fields(v.container_spec) + jcs_own_fields(v))
    }

    open spec fn of_jv(j: JsonV) -> Option<JobContainerSpecV> {
        match j {
            JsonV::Obj(m) => match (
                cs_of(m),
                jv_opt_str(m, "workingDirectory"@),
                jv_opt_str(m, "workspaceMountPath"@),
                jv_opt_str(m, "sourceMountPath"@),
                jv_opt_bool(m, "privileged"@),
                jv_opt_bool(m, "useHostDockerSocket"@),
            ) {
                (
                    Some(container_spec),
                    Some(working_directory),
                    Some(workspace_mount_path),
                    Some(source_mount_path),
                    Some(privileged),
                    Some(use_host_docker_socket),
                ) => Some(
                    JobContainerSpecV {
                        container_spec,
                        working_directory,
                        workspace_mount_path,
                        source_mount_path,
                        privileged,
                        use_host_docker_socket,
                    },
                ),
                _ => None,
            },
            _ => None,
        }
    }

    fn to_json(&self) -> (r: Json) {
        let mut out: Vec<(String, Json)> = Vec::new();
        push_cs_fields(&mut out, &self.container_spec);
        push_opt_str_field(&mut out, "workingDirectory", &self.working_directory);
        push_opt_str_field(&mut out, "workspaceMountPath", &self.workspace_mount_path);
        push_opt_str_field(&mut out, "sourceMountPath", &self.source_mount_path);
        push_opt_bool_field(&mut out, "privileged", self.privileged);
        push_opt_bool_field(&mut out, "useHostDockerSocket", self.use_host_docker_socket);
        proof {
            crate::json::lemma_json_v_obj(out);
            assert(crate::json::obj_v(Seq::<(String, Json)>::empty()) + cs_fields(
                self.container_spec@,
            ) + opt_str_field("workingDirectory"@, self.working_directory.deep_view())
                + opt_str_field("workspaceMountPath"@, self.workspace_mount_path.deep_view())
                + opt_str_field("sourceMountPath"@, self.source_mount_path.deep_view())
                + opt_bool_field("privileged"@, self.privileged) + opt_bool_field(
                "useHostDockerSocket"@,
                self.use_host_docker_socket,
            ) =~= cs_fields(self.container_spec@) + jcs_own_fields(self.deep_view()));
        }
        Json::Obj(out)
    }

    fn from_json(j: &Json) -> (r: Option<Self>) {
        match j {
            Json::Obj(fields) => {
                proof {
                    assert(*j == Json::Obj(*fields));
                    crate::json::lemma_json_v_obj(*fields);
                }
                match (
                    get_cs(fields),
                    get_opt_str(fields, "workingDirectory"),
                    get_opt_str(fields, "workspaceMountPath"),
                    get_opt_str(fields, "sourceMountPath"),
                    get_opt_bool(fields, "privileged"),
                    get_opt_bool(fields, "useHostDockerSocket"),
                ) {
                    (
                        Option::Some(container_spec),
                        Option::Some(working_directory),
                        Option::Some(workspace_mount_path),
                        Option::Some(source_mount_path),
                        Option::Some(privileged),
                        Option::Some(use_host_docker_socket),
                    ) => Some(
                        JobContainerSpec {
                            container_spec,
                            working_directory,
                            workspace_mount_path,
                            source_mount_path,
                            privileged,
                            use_host_docker_socket,
                        },
                    ),
                    _ => None,
                }
            },
            _ => None,
        }
    }

    #[verifier::rlimit(80)]
    proof fn lemma_round_trip(v: JobContainerSpecV) {
        broadcast use group_lookup_rules;
        broadcast use lemma_lookup_cs_fields;

        reveal_strlit("image");
        reveal_strlit("imagePullPolicy");
        reveal_strlit("command");
        reveal_strlit("arguments");
        reveal_strlit("environment");
        reveal_strlit("workingDirectory");
        reveal_strlit("workspaceMountPath");
        reveal_strlit("sourceMountPath");
        reveal_strlit("privileged");
        reveal_strlit("useHostDockerSocket");
        assert("image"@.len() == 5);
        assert("imagePullPolicy"@.len() == 15);
        assert("command"@.len() == 7);
        assert("arguments"@.len() == 9);
        assert("environment"@.len() == 11);
        assert("workingDirectory"@.len() == 16);
        assert("workspaceMountPath"@.len() == 18);
        assert("sourceMountPath"@.len() == 15);
        assert("privileged"@.len() == 10);
        assert("useHostDockerSocket"@.len() == 19);
        assert("sourceMountPath"@[0] != "imagePullPolicy"@[0]);
        let own = jcs_own_fields(v);
        let m = cs_fields(v.container_spec) + own;
        assert(Self::to_jv(v) == JsonV::Obj(m));
        assert forall|k: Seq<char>| is_cs_key(k) implies jv_lookup(own, k) is None by {
            assert(jv_lookup(own, k) is None);
        }
        lemma_cs_of_fields(v.container_spec, own);
        assert(cs_of(m) == Some(v.container_spec));
        assert(jv_opt_str(m, "workingDirectory"@) == Some(v.working_directory));
        assert(jv_opt_str(m, "workspaceMountPath"@) == Some(v.workspace_mount_path));
        assert(jv_opt_str(m, "sourceMountPath"@) == Some(v.source_mount_path));
        assert(jv_opt_bool(m, "privileged"@) == Some(v.privileged));
        assert(jv_opt_bool(m, "useHostDockerSocket"@) == Some(v.use_host_docker_socket));
    }
}

/// What one job does: its primary container, sidecars, timeout and host
/// rules.
#[derive(Debug, Clone, PartialEq)]
pub struct JobSpec {
    pub primary_container: JobContainerSpec,
    pub sidecar_containers: Option<Vec<(String, JobContainerSpec)>>,
    pub timeout_seconds: Option<i64>,
    pub host: Option<JobHost>,
}

/// The mathematical model of a [`JobSpec`].
pub struct JobSpecV {
    pub primary_container: JobContainerSpecV,
    pub sidecar_containers: Option<Seq<(Seq<char>, JobContainerSpecV)>>,
    pub timeout_seconds: Option<i64>,
    pub host: Option<JobHostV>,
}

impl View for JobSpec {
    type V = JobSpecV;

    open spec fn view(&self) -> JobSpecV {
        JobSpecV {
            primary_container: self.primary_container@,
            sidecar_containers: self.sidecar_containers.deep_view(),
            timeout_seconds: self.timeout_seconds,
            host: self.host.deep_view(),
        }
    }
}

impl DeepView for JobSpec {
    type V = JobSpecV;

    open spec fn deep_view(&self) -> JobSpecV {
        self.view()
    }
}

impl Payload for JobSpec {
    open spec fn to_jv(v: JobSpecV) -> JsonV {
        JsonV::Obj(
            sfield("primaryContainer"@, <JobContainerSpec as Payload>::to_jv(v.primary_container))
                + opt_map_field::<JobContainerSpec>("sidecarContainers"@, v.sidecar_containers)
                + opt_i64_field("timeoutSeconds"@, v.timeout_seconds) + opt_payload_field::<
                JobHost,
            >("host"@, v.host),
        )
    }

    open spec fn of_jv(j: JsonV) -> Option<JobSpecV> {
        match j {
            JsonV::Obj(m) => match (
                jv_req_payload::<JobContainerSpec>(m, "primaryContainer"@),
                jv_opt_map::<JobContainerSpec>(m, "sidecarContainers"@),
                jv_opt_i64(m, "timeoutSeconds"@),
                jv_opt_payload::<JobHost>(m, "host"@),
            ) {
                (Some(primary_container), Some(sidecar_containers), Some(timeout_seconds), Some(
                    host,
                )) => Some(
                    JobSpecV { primary_container, sidecar_containers, timeout_seconds, host },
                ),
                _ => None,
            },
            _ => None,
        }
    }

    fn to_json(&self) -> (r: Json) {
        let mut out: Vec<(String, Json)> = Vec::new();
        push_payload_field::<JobContainerSpec>(&mut out, "primaryContainer", &self.primary_container);
        push_opt_map_field::<JobContainerSpec>(
            &mut out,
            "sidecarContainers",
            &self.sidecar_containers,
        );
        push_opt_i64_field(&mut out, "timeoutSeconds", self.timeout_seconds);
        push_opt_payload_field::<JobHost>(&mut out, "host", &self.host);
        proof {
            crate::json::lemma_json_v_obj(out);
            assert(crate::json::obj_v(Seq::<(String, Json)>::empty()) + sfield(
                "primaryContainer"@,
                <JobContainerSpec as Payload>::to_jv(self.primary_container@),
            ) + opt_map_field::<JobContainerSpec>(
                "sidecarContainers"@,
                self.sidecar_containers.deep_view(),
            ) + opt_i64_field("timeoutSeconds"@, self.timeout_seconds) + opt_payload_field::<
                JobHost,
            >("host"@, self.host.deep_view()) =~= sfield(
                "primaryContainer"@,
                <JobContainerSpec as Payload>::to_jv(self.primary_container@),
            ) + opt_map_field::<JobContainerSpec>(
                "sidecarContainers"@,
                self.sidecar_containers.deep_view(),
            ) + opt_i64_field("timeoutSeconds"@, self.timeout_seconds) + opt_payload_field::<
                JobHost,
            >("host"@, self.host.deep_view()));
        }
        Json::Obj(out)
    }

    fn from_json(j: &Json) -> (r: Option<Self>) {
        match j {
            Json::Obj(fields) => {
                proof {
                    assert(*j == Json::Obj(*fields));
                    crate::json::lemma_json_v_obj(*fields);
                }
                match (
                    get_req_payload::<JobContainerSpec>(fields, "primaryContainer"),
                    get_opt_map::<JobContainerSpec>(fields, "sidecarContainers"),
                    get_opt_i64(fields, "timeoutSeconds"),
                    get_opt_payload::<JobHost>(fields, "host"),
                ) {
                    (
                        Option::Some(primary_container),
                        Option::Some(sidecar_containers),
                        Option::Some(timeout_seconds),
                        Option::Some(host),
                    ) => Some(
                        JobSpec { primary_container, sidecar_containers, timeout_seconds, host },
                    ),
                    _ => None,
                }
            },
            _ => None,
        }
    }

    proof fn lemma_round_trip(v: JobSpecV) {
        broadcast use group_lookup_rules;

        reveal_strlit("primaryContainer");
        reveal_strlit("sidecarContainers");
        reveal_strlit("timeoutSeconds");
        reveal_strlit("host");
        assert("primaryContainer"@.len() == 16);
        assert("sidecarContainers"@.len() == 17);
        assert("timeoutSeconds"@.len() == 14);
        assert("host"@.len() == 4);
        let m = sfield(
            "primaryContainer"@,
            <JobContainerSpec as Payload>::to_jv(v.primary_container),
        ) + opt_map_field::<JobContainerSpec>("sidecarContainers"@, v.sidecar_containers)
            + opt_i64_field("timeoutSeconds"@, v.timeout_seconds) + opt_payload_field::<JobHost>(
            "host"@,
            v.host,
        );
        assert(Self::to_jv(v) == JsonV::Obj(m));
        <JobContainerSpec as Payload>::lemma_round_trip(v.primary_container);
        assert(jv_req_payload::<JobContainerSpec>(m, "primaryContainer"@) == Some(
            v.primary_container,
        ));
        match v.sidecar_containers {
            Some(sc) => {
                lemma_map_round_trip::<JobContainerSpec>(sc);
                assert(jv_opt_map::<JobContainerSpec>(m, "sidecarContainers"@) == Some(Some(sc)));
            },
            None => {
            },
        }
        assert(jv_opt_i64(m, "timeoutSeconds"@) == Some(v.timeout_seconds));
        match v.host {
            Some(h) => {
                <JobHost as Payload>::lemma_round_trip(h);
                assert(!(<JobHost as Payload>::to_jv(h) is Null));
                assert(jv_opt_payload::<JobHost>(m, "host"@) == Some(Some(h)));
            },
            None => {
                assert(jv_opt_payload::<JobHost>(m, "host"@) == Some(Option::<JobHostV>::None));
            },
        }
    }
}

/// One job: what it does and how far it has come.
#[derive(Debug, Clone, PartialEq)]
pub struct Job {
    pub spec: JobSpec,
    pub status: Option<JobStatus>,
}

/// The mathematical model of a [`Job`].
pub struct JobV {
    pub spec: JobSpecV,
    pub status: Option<JobStatusV>,
}

impl View for Job {
    type V = JobV;

    open spec fn view(&self) -> JobV {
        JobV { spec: self.spec@, status: self.status.deep_view() }
    }
}

impl DeepView for Job {
    type V = JobV;

    open spec fn deep_view(&self) -> JobV {
        self.view()
    }
}

impl Payload for Job {
    open spec fn to_jv(v: JobV) -> JsonV {
        JsonV::Obj(
            sfield("spec"@, <JobSpec as Payload>::to_jv(v.spec)) + opt_payload_field::<JobStatus>(
                "status"@,
                v.status,
            ),
        )
    }

    open spec fn of_jv(j: JsonV) -> Option<JobV> {
        match j {
            JsonV::Obj(m) => match (
                jv_req_payload::<JobSpec>(m, "spec"@),
                jv_opt_payload::<JobStatus>(m, "status"@),
            ) {
                (Some(spec), Some(status)) => Some(JobV { spec, status }),
                _ => None,
            },
            _ => None,
        }
    }

    fn to_json(&self) -> (r: Json) {
        let mut out: Vec<(String, Json)> = Vec::new();
        push_payload_field::<JobSpec>(&mut out, "spec", &self.spec);
        push_opt_payload_field::<JobStatus>(&mut out, "status", &self.status);
        proof {
            crate::json::lemma_json_v_obj(out);
            assert(crate::json::obj_v(Seq::<(String, Json)>::empty()) + sfield(
                "spec"@,
                <JobSpec as Payload>::to_jv(self.spec@),
            ) + opt_payload_field::<JobStatus>("status"@, self.status.deep_view()) =~= sfield(
                "spec"@,
                <JobSpec as Payload>::to_jv(self.spec@),
            ) + opt_payload_field::<JobStatus>("status"@, self.status.deep_view()));
        }
        Json::Obj(out)
    }

    fn from_json(j: &Json) -> (r: Option<Self>) {
        match j {
            Json::Obj(fields) => {
                proof {
                    assert(*j == Json::Obj(*fields));
                    crate::json::lemma_json_v_obj(*fields);
                }
                match (
                    get_req_payload::<JobSpec>(fields, "spec"),
                    get_opt_payload::<JobStatus>(fields, "status"),
                ) {
                    (Option::Some(spec), Option::Some(status)) => Some(Job { spec, status }),
                    _ => None,
                }
            },
            _ => None,
        }
    }

    proof fn lemma_round_trip(v: JobV) {
        broadcast use group_lookup_rules;

        reveal_strlit("spec");
        reveal_strlit("status");
        assert("spec"@.len() == 4);
        assert("status"@.len() == 6);
        let m = sfield("spec"@, <JobSpec as Payload>::to_jv(v.spec)) + opt_payload_field::<
            JobStatus,
        >("status"@, v.status);
        assert(Self::to_jv(v) == JsonV::Obj(m));
        <JobSpec as Payload>::lemma_round_trip(v.spec);
        assert(jv_req_payload::<JobSpec>(m, "spec"@) == Some(v.spec));
        match v.status {
            Some(st) => {
                <JobStatus as Payload>::lemma_round_trip(st);
                assert(!(<JobStatus as Payload>::to_jv(st) is Null));
                assert(jv_opt_payload::<JobStatus>(m, "status"@) == Some(Some(st)));
            },
            None => {
                assert(jv_opt_payload::<JobStatus>(m, "status"@) == Some(
                    Option::<JobStatusV>::None,
                ));
            },
        }
    }
}

} // verus!

//! The container specification shared by workers and jobs.

use vstd::prelude::*;

use crate::json::{Json, JsonV};
use crate::payload::{
    get_opt_arr, get_opt_payload, get_opt_strmap, get_str, group_lookup_rules, jv_lookup,
    jv_opt_arr, jv_opt_payload, jv_opt_strmap, jv_str, lemma_seq_round_trip,
    lemma_strmap_round_trip, opt_arr_field, opt_payload_field, opt_strmap_field,
    push_opt_arr_field, push_opt_payload_field, push_opt_strmap_field, push_str_field, sfield,
    Payload,
};

verus! {

/// When the container image is pulled.
#[derive(Debug, Clone, Copy, PartialEq, Eq, Structural)]
pub enum ImagePullPolicy {
    IfNotPresent,
    Always,
}

impl View for ImagePullPolicy {
    type V = ImagePullPolicy;

    open spec fn view(&self) -> ImagePullPolicy {
        *self
    }
}

impl DeepView for ImagePullPolicy {
    type V = ImagePullPolicy;

    open spec fn deep_view(&self) -> ImagePullPolicy {
        *self
    }
}

impl Payload for ImagePullPolicy {
    open spec fn to_jv(v: ImagePullPolicy) -> JsonV {
        match v {
            ImagePullPolicy::IfNotPresent => JsonV::Str("ifNotPresent"@),
            ImagePullPolicy::Always => JsonV::Str("always"@),
        }
    }

    open spec fn of_jv(j: JsonV) -> Option<ImagePullPolicy> {
        match j {
            JsonV::Str(s) => if s == "ifNotPresent"@ {
                Some(ImagePullPolicy::IfNotPresent)
            } else if s == "always"@ {
                Some(ImagePullPolicy::Always)
            } else {
                None
            },
            _ => None,
        }
    }

    fn to_json(&self) -> (r: Json) {
        match self {
            ImagePullPolicy::IfNotPresent => Json::Str(String::from_str("ifNotPresent")),
            ImagePullPolicy::Always => Json::Str(String::from_str("always")),
        }
    }

    fn from_json(j: &Json) -> (r: Option<Self>) {
        match j {
            Json::Str(s) => {
                let a = String::from_str("ifNotPresent");
                let b = String::from_str("always");
                if *s == a {
                    Some(ImagePullPolicy::IfNotPresent)
                } else if *s == b {
                    Some(ImagePullPolicy::Always)
                } else {
                    None
                }
            },
            _ => None,
        }
    }

    proof fn lemma_round_trip(v: ImagePullPolicy) {
        reveal_strlit("ifNotPresent");
        reveal_strlit("always");
        assert("ifNotPresent"@.len() == 12);
        assert("always"@.len() == 6);
    }
}

/// What runs in one container: the image and its invocation.
#[derive(Debug, Clone, PartialEq)]
pub struct ContainerSpec {
    pub image: String,
    pub image_pull_policy: Option<ImagePullPolicy>,
    pub command: Option<Vec<String>>,
    pub arguments: Option<Vec<String>>,
    pub environment: Option<Vec<(String, String)>>,
}

/// The mathematical model of a [`ContainerSpec`].
pub struct ContainerSpecV {
    pub image: Seq<char>,
    pub image_pull_policy: Option<ImagePullPolicy>,
    pub command: Option<Seq<Seq<char>>>,
    pub arguments: Option<Seq<Seq<char>>>,
    pub environment: Option<Seq<(Seq<char>, Seq<char>)>>,
}

impl View for ContainerSpec {
    type V = ContainerSpecV;

    open spec fn view(&self) -> ContainerSpecV {
        ContainerSpecV {
            image: self.image@,
            image_pull_policy: self.image_pull_policy,
            command: self.command.deep_view(),
            arguments: self.arguments.deep_view(),
            environment: self.environment.deep_view(),
        }
    }
}

impl DeepView for ContainerSpec {
    type V = ContainerSpecV;

    open spec fn deep_view(&self) -> ContainerSpecV {
        self.view()
    }
}

/// The members of a container specification, which other resources flatten
/// into their own objects.
pub open spec fn cs_fields(v: ContainerSpecV) -> Seq<(Seq<char>, JsonV)> {
    sfield("image"@, JsonV::Str(v.image)) + opt_payload_field::<ImagePullPolicy>(
        "imagePullPolicy"@,
        v.image_pull_policy,
    ) + opt_arr_field::<String>("command"@, v.command) + opt_arr_field::<String>(
        "arguments"@,
        v.arguments,
    ) + opt_strmap_field("environment"@, v.environment)
}

/// A container specification read back from the members of an object.
pub open spec fn cs_of(m: Seq<(Seq<char>, JsonV)>) -> Option<ContainerSpecV> {
    match (
        jv_str(m, "image"@),
        jv_opt_payload::<ImagePullPolicy>(m, "imagePullPolicy"@),
        jv_opt_arr::<String>(m, "command"@),
        jv_opt_arr::<String>(m, "arguments"@),
        jv_opt_strmap(m, "environment"@),
    ) {
        (Some(image), Some(image_pull_policy), Some(command), Some(arguments), Some(
            environment,
        )) => Some(ContainerSpecV { image, image_pull_policy, command, arguments, environment }),
        _ => None,
    }
}

/// Whether `k2` is one of the member names of a container specification.
pub open spec fn is_cs_key(k2: Seq<char>) -> bool {
    k2 == "image"@ || k2 == "imagePullPolicy"@ || k2 == "command"@ || k2 == "arguments"@ || k2
        == "environment"@
}

/// What a lookup finds among flattened container-specification members.
pub broadcast proof fn lemma_lookup_cs_fields(v: ContainerSpecV, k2: Seq<char>)
    ensures
        #[trigger] jv_lookup(cs_fields(v), k2) == (if k2 == "image"@ {
            Some(JsonV::Str(v.image))
        } else if k2 == "imagePullPolicy"@ {
            match v.image_pull_policy {
                Some(p) => Some(<ImagePullPolicy as Payload>::to_jv(p)),
                None => None,
            }
        } else if k2 == "command"@ {
            match v.command {
                Some(c) => Some(JsonV::Arr(crate::payload::to_jv_seq::<String>(c))),
                None => None,
            }
        } else if k2 == "arguments"@ {
            match v.arguments {
                Some(a) => Some(JsonV::Arr(crate::payload::to_jv_seq::<String>(a))),
                None => None,
            }
        } else if k2 == "environment"@ {
            match v.environment {
                Some(e) => Some(JsonV::Obj(crate::payload::strmap_jv(e))),
                None => None,
            }
        } else {
            Option::<JsonV>::None
        }),
{
    broadcast use group_lookup_rules;

    reveal_strlit("image");
    reveal_strlit("imagePullPolicy");
    reveal_strlit("command");
    reveal_strlit("arguments");
    reveal_strlit("environment");
    assert("image"@.len() == 5);
    assert("imagePullPolicy"@.len() == 15);
    assert("command"@.len() == 7);
    assert("arguments"@.len() == 9);
    assert("environment"@.len() == 11);
}

/// Reading the flattened members back yields the specification, whatever
/// other members stand beside them, as long as none of them reuses one of
/// its names.
pub proof fn lemma_cs_of_fields(v: ContainerSpecV, rest: Seq<(Seq<char>, JsonV)>)
    requires
        forall|k: Seq<char>| is_cs_key(k) ==> jv_lookup(rest, k) is None,
    ensures
        cs_of(cs_fields(v) + rest) == Some(v),
{
    broadcast use group_lookup_rules;
    broadcast use lemma_lookup_cs_fields;

    reveal_strlit("image");
    reveal_strlit("imagePullPolicy");
    reveal_strlit("command");
    reveal_strlit("arguments");
    reveal_strlit("environment");
    assert("image"@.len() == 5);
    assert("imagePullPolicy"@.len() == 15);
    assert("command"@.len() == 7);
    assert("arguments"@.len() == 9);
    assert("environment"@.len() == 11);
    let m = cs_fields(v) + rest;
    assert(is_cs_key("image"@));
    assert(is_cs_key("imagePullPolicy"@));
    assert(is_cs_key("command"@));
    assert(is_cs_key("arguments"@));
    assert(is_cs_key("environment"@));
    assert(jv_str(m, "image"@) == Some(v.image));
    match v.image_pull_policy {
        Some(p) => {
            <ImagePullPolicy as Payload>::lemma_round_trip(p);
            assert(!(<ImagePullPolicy as Payload>::to_jv(p) is Null));
            assert(jv_opt_payload::<ImagePullPolicy>(m, "imagePullPolicy"@) == Some(Some(p)));
        },
        None => {
            assert(jv_opt_payload::<ImagePullPolicy>(m, "imagePullPolicy"@) == Some(
                Option::<ImagePullPolicy>::None,
            ));
        },
    }
    match v.command {
        Some(ss) => {
            lemma_seq_round_trip::<String>(ss);
            assert(jv_opt_arr::<String>(m, "command"@) == Some(Some(ss)));
        },
        None => {
        },
    }
    match v.arguments {
        Some(ss) => {
            lemma_seq_round_trip::<String>(ss);
            assert(jv_opt_arr::<String>(m, "arguments"@) == Some(Some(ss)));
        },
        None => {
        },
    }
    match v.environment {
        Some(env) => {
            lemma_strmap_round_trip(env);
            assert(jv_opt_strmap(m, "environment"@) == Some(Some(env)));
        },
        None => {
        },
    }
}

/// Appends the flattened members of a container specification.
pub fn push_cs_fields(out: &mut Vec<(String, Json)>, cs: &ContainerSpec)
    ensures
        crate::json::obj_v(final(out)@) == crate::json::obj_v(old(out)@) + cs_fields(
            cs.deep_view(),
        ),
{
    push_str_field(out, "image", &cs.image);
    push_opt_payload_field::<ImagePullPolicy>(out, "imagePullPolicy", &cs.image_pull_policy);
    push_opt_arr_field::<String>(out, "command", &cs.command);
    push_opt_arr_field::<String>(out, "arguments", &cs.arguments);
    push_opt_strmap_field(out, "environment", &cs.environment);
}

/// Reads the flattened members of a container specification back from an
/// object.
pub fn get_cs(fields: &Vec<(String, Json)>) -> (r: Option<ContainerSpec>)
    ensures
        (match r {
            Some(cs) => cs_of(crate::json::obj_v(fields@)) == Some(cs.deep_view()),
            None => cs_of(crate::json::obj_v(fields@)) is None,
        }),
{
    match (
        get_str(fields, "image"),
        get_opt_payload::<ImagePullPolicy>(fields, "imagePullPolicy"),
        get_opt_arr::<String>(fields, "command"),
        get_opt_arr::<String>(fields, "arguments"),
        get_opt_strmap(fields, "environment"),
    ) {
        (
            Option::Some(image),
            Option::Some(image_pull_policy),
            Option::Some(command),
            Option::Some(arguments),
            Option::Some(environment),
        ) => Some(ContainerSpec { image, image_pull_policy, command, arguments, environment }),
        _ => None,
    }
}

impl Payload for ContainerSpec {
    open spec fn to_jv(v: ContainerSpecV) -> JsonV {
        JsonV::Obj(cs_fields(v))
    }

    open spec fn of_jv(j: JsonV) -> Option<ContainerSpecV> {
        match j {
            JsonV::Obj(m) => cs_of(m),
            _ => None,
        }
    }

    fn to_json(&self) -> (r: Json) {
        let mut out: Vec<(String, Json)> = Vec::new();
        push_cs_fields(&mut out, self);
        proof {
            crate::json::lemma_json_v_obj(out);
            assert(crate::json::obj_v(Seq::<(String, Json)>::empty()) + cs_fields(
                self.deep_view(),
            ) =~= cs_fields(self.deep_view()));
        }
        Json::Obj(out)
    }

    fn from_json(j: &Json) -> (r: Option<Self>) {
        match j {
            Json::Obj(fields) => {
                proof {
                    assert(*j == Json::Obj(*fields));
                    crate::json::lemma_json_v_obj(*fields);
                }
                get_cs(fields)
            },
            _ => None,
        }
    }

    proof fn lemma_round_trip(v: ContainerSpecV) {
        let e = Seq::<(Seq<char>, JsonV)>::empty();
        assert forall|k: Seq<char>| is_cs_key(k) implies jv_lookup(e, k) is None by {
            assert(jv_lookup(e, k) is None);
        }
        lemma_cs_of_fields(v, e);
        assert(cs_fields(v) + e =~= cs_fields(v));
    }
}

} // verus!

//! Session bootstrap: exchanging the root password for a bearer token.
//!
//! This is the one operation that runs before any bearer token exists, so
//! its request carries HTTP basic credentials instead.

use vstd::prelude::*;

use crate::client::{collection_url, decode_body, decoded, Client, ClientConfig};
use crate::error::BrigadeError;
use crate::json::{Json, JsonV};
use crate::meta::{get_tm, push_tm, tm_fields, tm_of, TypeMeta};
use crate::payload::{get_str, group_lookup_rules, jv_lookup, jv_str, sfield, Payload};
use crate::rest::{Auth, AuthV, HttpRequest, Method};

verus! {

/// A session token: the `kind`/`apiVersion` pair the server stamps on it,
/// and the opaque value that becomes the bearer credential of every later
/// client.
#[derive(Debug, PartialEq)]
pub struct Token {
    pub type_meta: TypeMeta,
    pub value: String,
}

/// The mathematical model of a [`Token`].
pub struct TokenV {
    pub type_meta: TypeMeta,
    pub value: Seq<char>,
}

impl View for Token {
    type V = TokenV;

    open spec fn view(&self) -> TokenV {
        TokenV { type_meta: self.type_meta, value: self.value@ }
    }
}

impl DeepView for Token {
    type V = TokenV;

    open spec fn deep_view(&self) -> TokenV {
        self.view()
    }
}

impl Payload for Token {
    open spec fn to_jv(v: TokenV) -> JsonV {
        JsonV::Obj(tm_fields(Some(v.type_meta)) + sfield("value"@, JsonV::Str(v.value)))
    }

    open spec fn of_jv(j: JsonV) -> Option<TokenV> {
        match j {
            JsonV::Obj(m) => match (tm_of(m), jv_str(m, "value"@)) {
                (Some(Some(tm)), Some(value)) => Some(TokenV { type_meta: tm, value }),
                _ => None,
            },
            _ => None,
        }
    }

    fn to_json(&self) -> (r: Json) {
        let mut out: Vec<(String, Json)> = Vec::new();
        push_tm(&mut out, Some(self.type_meta));
        crate::payload::push_str_field(&mut out, "value", &self.value);
        proof {
            crate::json::lemma_json_v_obj(out);
            assert(crate::json::obj_v(Seq::<(String, Json)>::empty()) + tm_fields(
                Some(self.type_meta),
            ) + sfield("value"@, JsonV::Str(self.value@)) =~= tm_fields(Some(self.type_meta))
                + sfield("value"@, JsonV::Str(self.value@)));
        }
        Json::Obj(out)
    }

    fn from_json(j: &Json) -> (r: Option<Self>) {
        match j {
            Json::Obj(fields) => {
                proof {
                    assert(*j == Json::Obj(*fields));
                    crate::json::lemma_json_v_obj(*fields);
                }
                match (get_tm(fields), get_str(fields, "value")) {
                    (Option::Some(Option::Some(tm)), Option::Some(value)) => Some(
                        Token { type_meta: tm, value },
                    ),
                    _ => None,
                }
            },
            _ => None,
        }
    }

    proof fn lemma_round_trip(v: TokenV) {
        broadcast use group_lookup_rules;

        reveal_strlit("kind");
        reveal_strlit("apiVersion");
        reveal_strlit("value");
        assert("kind"@.len() == 4);
        assert("apiVersion"@.len() == 10);
        assert("value"@.len() == 5);
        let m = tm_fields(Some(v.type_meta)) + sfield("value"@, JsonV::Str(v.value));
        assert(Self::to_jv(v) == JsonV::Obj(m));
        crate::meta::lemma_lookup_tm_fields(Some(v.type_meta), "kind"@);
        crate::meta::lemma_lookup_tm_fields(Some(v.type_meta), "apiVersion"@);
        crate::meta::lemma_lookup_tm_fields(Some(v.type_meta), "value"@);
        assert(jv_lookup(m, "value"@) == Some(JsonV::Str(v.value)));
        <TypeMeta as Payload>::lemma_round_trip(v.type_meta);
        assert(tm_of(m) == Some(Some(v.type_meta)));
        assert(jv_str(m, "value"@) == Some(v.value));
    }
}

/// The client of the sessions collection, used once to bootstrap the first
/// credential.
pub struct SessionsClient {
    pub client: Client,
}

impl SessionsClient {
    /// A sessions client for the API at `address`.
    pub fn new(address: String, cfg: ClientConfig, token: Option<String>) -> (r: Self)
        ensures
            r.client.base_address == address,
            r.client.url_path@ == "sessions"@,
            r.client.config == cfg,
            r.client.token == token,
    {
        let client = Client::new(address, String::from_str("sessions"), cfg, token);
        SessionsClient { client }
    }

    /// The request of a root-session bootstrap: exactly one POST to
    /// `{base}/v2/sessions` with the single query parameter `root=true` and
    /// HTTP basic credentials `root:pwd`, and no body.
    pub fn create_root_session_request(&self, pwd: String) -> (r: HttpRequest)
        ensures
            r.method == Method::Post,
            r.url@ == collection_url(self.client.base_address@, self.client.url_path@),
            r.query.deep_view() == seq![("root"@, "true"@)],
            r.auth@ == AuthV::Basic("root"@, pwd@),
            r.body is None,
    {
        let url = self.client.collection_url_string();
        let mut r = self.client.req(Method::Post, url.as_str(), Option::None);
        let mut q: Vec<(String, String)> = Vec::new();
        q.push((String::from_str("root"), String::from_str("true")));
        proof {
            assert(q.deep_view() =~= seq![("root"@, "true"@)]);
        }
        r.query = q;
        r.auth = Auth::Basic(String::from_str("root"), pwd);
        r
    }

    /// Decodes the response of a session bootstrap as a [`Token`], whose
    /// `value` is the server-returned token string.
    pub fn create_root_session_response(&self, body: &str) -> (r: Result<Token, BrigadeError>)
        ensures
            (match r {
                Ok(t) => decoded::<Token>(body@) == Some(t.deep_view()),
                Err(e) => decoded::<Token>(body@) is None && e is Decode,
            }),
    {
        decode_body(body)
    }
}

} // verus!

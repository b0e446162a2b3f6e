//! The generic typed REST client: one collection path bound to a transport
//! client, and the request builders that every resource operation reduces
//! to.
//!
//! Each operation of the platform's API corresponds to one request builder
//! here (`get_request`, `create_request`, `update_request`, `delete_request`,
//! `list_req`) and, where a body comes back, one decoder on the response
//! text.  The application sends the built request and hands the response
//! body to the decoder.

use vstd::prelude::*;

use crate::error::BrigadeError;
use crate::json::print_json;
use crate::parse::parse_json;
use crate::meta::{List, ListOptions};
use crate::payload::Payload;
use crate::rest;
use crate::rest::{bearer_of, pagination_params, HttpRequest, Method};
use crate::text::string_from_chars;

pub use crate::rest::ClientConfig;

verus! {

/// The URL of a whole collection: `{base}/v2/{collection}`.
pub open spec fn collection_url(base: Seq<char>, path: Seq<char>) -> Seq<char> {
    base + "/v2/"@ + path
}

/// The URL of one item of a collection: `{base}/v2/{collection}/{id}`.
pub open spec fn item_url(base: Seq<char>, path: Seq<char>, id: Seq<char>) -> Seq<char> {
    collection_url(base, path) + "/"@ + id
}

/// The JSON text that `v` is sent as.
pub open spec fn encoded<T: Payload>(v: <T as DeepView>::V) -> Seq<char> {
    print_json(T::to_jv(v))
}

/// What decoding a response body as a `T` yields: the body must parse as
/// JSON and the resulting document must have the shape of `T`; otherwise
/// decoding fails.
pub open spec fn decoded<T: Payload>(body: Seq<char>) -> Option<<T as DeepView>::V> {
    match parse_json(body) {
        Some(j) => T::of_jv(j),
        None => None,
    }
}

/// A typed client over one REST collection: a transport client together
/// with the collection path every request URL is built from.
#[derive(Debug, Clone, PartialEq)]
pub struct Client {
    pub config: ClientConfig,
    pub base_address: String,
    pub token: Option<String>,
    pub url_path: String,
}

impl Client {
    /// A client for the collection `url_path` at `address`, carrying
    /// `token` as the bearer credential of every request when one is given.
    pub fn new(address: String, url_path: String, config: ClientConfig, token: Option<
        String,
    >) -> (r: Self)
        ensures
            r.base_address == address,
            r.url_path == url_path,
            r.config == config,
            r.token == token,
    {
        Client { config, base_address: address, token, url_path }
    }

    /// A request for `method` on `url` with this client's credentials and
    /// the given pagination options.
    pub fn req(&self, method: Method, url: &str, opts: Option<ListOptions>) -> (r: HttpRequest)
        ensures
            r.method == method,
            r.url@ == url@,
            r.auth@ == bearer_of(self.token.deep_view()),
            r.query.deep_view() == pagination_params(opts.deep_view()),
            r.body is None,
    {
        rest::build_request(&self.token, method, url, opts)
    }

    /// The URL of this client's collection.
    pub fn collection_url_string(&self) -> (r: String)
        ensures
            r@ == collection_url(self.base_address@, self.url_path@),
    {
        let mut u = self.base_address.clone();
        u.append("/v2/");
        u.append(self.url_path.as_str());
        u
    }

    /// The URL of the item `id` of this client's collection.
    pub fn item_url_string(&self, id: &str) -> (r: String)
        ensures
            r@ == item_url(self.base_address@, self.url_path@, id@),
    {
        let mut u = self.collection_url_string();
        u.append("/");
        u.append(id);
        u
    }

    /// The request of a `get` operation: GET on the item URL, with no query
    /// parameters and no body.
    pub fn get_request(&self, id: &str) -> (r: HttpRequest)
        ensures
            r.method == Method::Get,
            r.url@ == item_url(self.base_address@, self.url_path@, id@),
            r.auth@ == bearer_of(self.token.deep_view()),
            r.query.deep_view() == Seq::<(Seq<char>, Seq<char>)>::empty(),
            r.body is None,
    {
        let url = self.item_url_string(id);
        self.req(Method::Get, url.as_str(), Option::None)
    }

    /// The request of a `delete` operation: DELETE on the item URL, with no
    /// query parameters and no body.  The response body of a delete is
    /// discarded without any decoding.
    pub fn delete_request(&self, id: &str) -> (r: HttpRequest)
        ensures
            r.method == Method::Delete,
            r.url@ == item_url(self.base_address@, self.url_path@, id@),
            r.auth@ == bearer_of(self.token.deep_view()),
            r.query.deep_view() == Seq::<(Seq<char>, Seq<char>)>::empty(),
            r.body is None,
    {
        let url = self.item_url_string(id);
        self.req(Method::Delete, url.as_str(), Option::None)
    }

    /// The request of a `list` operation: GET on the collection URL with
    /// exactly the pagination query parameters that `opts` calls for, and no
    /// body.
    pub fn list_req(&self, opts: Option<ListOptions>) -> (r: HttpRequest)
        ensures
            r.method == Method::Get,
            r.url@ == collection_url(self.base_address@, self.url_path@),
            r.auth@ == bearer_of(self.token.deep_view()),
            r.query.deep_view() == pagination_params(opts.deep_view()),
            r.body is None,
    {
        let url = self.collection_url_string();
        self.req(Method::Get, url.as_str(), opts)
    }

    /// The request of a `create` operation: POST on the collection URL with
    /// `t` encoded as the JSON body.
    pub fn create_request<T: Payload>(&self, t: &T) -> (r: HttpRequest)
        ensures
            r.method == Method::Post,
            r.url@ == collection_url(self.base_address@, self.url_path@),
            r.auth@ == bearer_of(self.token.deep_view()),
            r.query.deep_view() == Seq::<(Seq<char>, Seq<char>)>::empty(),
            r.body.deep_view() == Some(encoded::<T>(t.deep_view())),
    {
        let url = self.collection_url_string();
        let mut r = self.req(Method::Post, url.as_str(), Option::None);
        r.body = Option::Some(encode_body(t));
        r
    }

    /// The request of an `update` operation: PUT on the item URL with `t`
    /// encoded as the JSON body.
    pub fn update_request<T: Payload>(&self, id: &str, t: &T) -> (r: HttpRequest)
        ensures
            r.method == Method::Put,
            r.url@ == item_url(self.base_address@, self.url_path@, id@),
            r.auth@ == bearer_of(self.token.deep_view()),
            r.query.deep_view() == Seq::<(Seq<char>, Seq<char>)>::empty(),
            r.body.deep_view() == Some(encoded::<T>(t.deep_view())),
    {
        let url = self.item_url_string(id);
        let mut r = self.req(Method::Put, url.as_str(), Option::None);
        r.body = Option::Some(encode_body(t));
        r
    }

    /// Accepts the response of an operation whose body is discarded, such
    /// as a `delete` or a cancellation: the body, empty or not, is never
    /// decoded, so the operation succeeds whenever the transport did.
    pub fn discard_response(&self, body: &str) -> (r: Result<(), BrigadeError>)
        ensures
            r is Ok,
    {
        let _ = body;
        Ok(())
    }

    /// Decodes a response body as a `T`, exactly when the body is valid
    /// JSON of the shape of `T`.
    pub fn decode_response<T: Payload>(&self, body: &str) -> (r: Result<T, BrigadeError>)
        ensures
            (match r {
                Ok(t) => decoded::<T>(body@) == Some(t.deep_view()),
                Err(e) => decoded::<T>(body@) is None && e is Decode,
            }),
    {
        decode_body(body)
    }

    /// Decodes a response body as one page of a listing of `T`.
    pub fn decode_list_response<T: Payload>(&self, body: &str) -> (r: Result<
        List<T>,
        BrigadeError,
    >)
        ensures
            (match r {
                Ok(l) => decoded::<List<T>>(body@) == Some(l.deep_view()),
                Err(e) => decoded::<List<T>>(body@) is None && e is Decode,
            }),
    {
        decode_body(body)
    }
}

/// Serialization round trip at the wire level: the encoded body of any
/// payload value decodes back to exactly that value, for every payload
/// type, with absent optional fields staying absent.
pub proof fn lemma_encode_decode_round_trip<T: Payload>(v: <T as DeepView>::V)
    ensures
        decoded::<T>(encoded::<T>(v)) == Some(v),
{
    crate::parse::lemma_print_parse_round_trip(T::to_jv(v));
    T::lemma_round_trip(v);
}

/// Encodes `t` as the JSON text of a request body.
pub fn encode_body<T: Payload>(t: &T) -> (r: String)
    ensures
        r@ == encoded::<T>(t.deep_view()),
{
    let j = t.to_json();
    let out = crate::json::json_to_chars(&j);
    string_from_chars(&out)
}

/// Decodes a response body as a `T`, exactly when the body is valid JSON of
/// the shape of `T`.
pub fn decode_body<T: Payload>(body: &str) -> (r: Result<T, BrigadeError>)
    ensures
        (match r {
            Ok(t) => decoded::<T>(body@) == Some(t.deep_view()),
            Err(e) => decoded::<T>(body@) is None && e is Decode,
        }),
{
    match crate::parse::parse_json_str(body) {
        Option::Some(j) => {
            match T::from_json(&j) {
                Option::Some(t) => Ok(t),
                Option::None => Err(
                    BrigadeError::Decode(
                        String::from_str("response body does not have the expected shape"),
                    ),
                ),
            }
        },
        Option::None => Err(
            BrigadeError::Decode(String::from_str("response body is not valid JSON")),
        ),
    }
}

} // verus!

//! The request model of the transport layer.
//!
//! Every operation of the library reduces to building one [`HttpRequest`]: a
//! plain description of the HTTP method, URL, query parameters, credentials
//! and optional JSON body of a single call.  The surrounding application
//! translates it into an actual request on the wire and hands the response
//! body back to the library for decoding.

use vstd::prelude::*;

use crate::meta::{ListOptions, ListOptionsV};
use crate::text::{dec_int, i64_to_string};

verus! {

/// The HTTP method of a request.
#[derive(Debug, Clone, Copy, PartialEq, Eq, Structural)]
pub enum Method {
    Get,
    Post,
    Put,
    Delete,
}

/// The credentials attached to a request.
#[derive(Debug, Clone, PartialEq)]
pub enum Auth {
    /// No credentials: only the session-bootstrap call goes out this way
    /// when no token exists yet.
    Anonymous,
    /// A bearer token.
    Bearer(String),
    /// HTTP basic credentials: user name and password.
    Basic(String, String),
}

/// The mathematical model of an [`Auth`].
pub enum AuthV {
    Anonymous,
    Bearer(Seq<char>),
    Basic(Seq<char>, Seq<char>),
}

impl View for Auth {
    type V = AuthV;

    open spec fn view(&self) -> AuthV {
        match self {
            Auth::Anonymous => AuthV::Anonymous,
            Auth::Bearer(t) => AuthV::Bearer(t@),
            Auth::Basic(u, p) => AuthV::Basic(u@, p@),
        }
    }
}

/// One fully described HTTP request, ready to be sent by the application.
#[derive(Debug, Clone, PartialEq)]
pub struct HttpRequest {
    pub method: Method,
    pub url: String,
    pub query: Vec<(String, String)>,
    pub auth: Auth,
    pub body: Option<String>,
}

/// The bearer credential derived from an optional token: requests carry the
/// token as a bearer credential when one is set and go out anonymously
/// otherwise.
pub open spec fn bearer_of(token: Option<Seq<char>>) -> AuthV {
    match token {
        Some(t) => AuthV::Bearer(t),
        None => AuthV::Anonymous,
    }
}

/// The query parameters contributed by an optional continuation token.
pub open spec fn continue_params(c: Option<Seq<char>>) -> Seq<(Seq<char>, Seq<char>)> {
    match c {
        Some(s) => seq![("continue"@, s)],
        None => Seq::empty(),
    }
}

/// The query parameters contributed by an optional page-size limit.
pub open spec fn limit_params(l: Option<i64>) -> Seq<(Seq<char>, Seq<char>)> {
    match l {
        Some(n) => seq![("limit"@, dec_int(n as int))],
        None => Seq::empty(),
    }
}

/// The pagination query parameters of a request: nothing when no options are
/// given; otherwise a `continue` parameter when a continuation token is set,
/// followed by a `limit` parameter when a limit is set.
pub open spec fn pagination_params(opts: Option<ListOptionsV>) -> Seq<(Seq<char>, Seq<char>)> {
    match opts {
        None => Seq::empty(),
        Some(o) => continue_params(o.continue_id) + limit_params(o.limit),
    }
}

/// Builds the request every operation starts from: `method` on `url`, the
/// token (when given) as a bearer credential, the pagination options (when
/// given) as query parameters, and no body.
pub fn build_request(token: &Option<String>, method: Method, url: &str, opts: Option<
    ListOptions,
>) -> (r: HttpRequest)
    ensures
        r.method == method,
        r.url@ == url@,
        r.auth@ == bearer_of(token.deep_view()),
        r.query.deep_view() == pagination_params(opts.deep_view()),
        r.body is None,
{
    let auth = match token {
        Option::Some(t) => Auth::Bearer(t.clone()),
        Option::None => Auth::Anonymous,
    };
    let mut query: Vec<(String, String)> = Vec::new();
    match opts {
        Option::Some(o) => {
            match o.continue_id {
                Option::Some(c) => {
                    query.push((String::from_str("continue"), c));
                },
                Option::None => {},
            }
            match o.limit {
                Option::Some(l) => {
                    query.push((String::from_str("limit"), i64_to_string(l)));
                },
                Option::None => {},
            }
            proof {
                assert(query.deep_view() =~= pagination_params(Some(o@)));
            }
        },
        Option::None => {
            proof {
                assert(query.deep_view() =~= Seq::<(Seq<char>, Seq<char>)>::empty());
            }
        },
    }
    HttpRequest { method, url: url.to_owned(), query, auth, body: Option::None }
}

/// Configuration of a transport client: whether certificate validation is
/// disabled for every request the client issues.
#[derive(Debug, Clone, PartialEq)]
pub struct ClientConfig {
    pub allow_insecure_connections: bool,
}

impl ClientConfig {
    /// The default configuration: certificates are validated.
    pub fn new() -> (r: Self)
        ensures
            !r.allow_insecure_connections,
    {
        Self { allow_insecure_connections: false }
    }
}

/// A bare transport client: the base address of the API, the TLS policy, and
/// the bearer token (if any) attached to every request it builds.
#[derive(Debug, Clone, PartialEq)]
pub struct Client {
    pub config: ClientConfig,
    pub address: String,
    pub token: Option<String>,
}

impl Client {
    /// A transport client for `address` under `config`, carrying `token` as
    /// its bearer credential when one is given.  The token is fixed for the
    /// client's lifetime: to rotate credentials, construct a new client.
    pub fn new(address: String, config: ClientConfig, token: Option<String>) -> (r: Self)
        ensures
            r.address == address,
            r.config == config,
            r.token == token,
    {
        Client { config, address, token }
    }

    /// A request for `method` on `url`, with this client's credentials and
    /// the given pagination options.
    pub fn req(&self, method: Method, url: &str, opts: Option<ListOptions>) -> (r: HttpRequest)
        ensures
            r.method == method,
            r.url@ == url@,
            r.auth@ == bearer_of(self.token.deep_view()),
            r.query.deep_view() == pagination_params(opts.deep_view()),
            r.body is None,
    {
        build_request(&self.token, method, url, opts)
    }
}

} // verus!

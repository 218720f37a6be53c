//! The panel client's state and its request planning.
//!
//! A `DVHOST` holds the normalized endpoints, the bearer token obtained at
//! construction (absent when authentication failed), and the system
//! snapshot cached at construction. Every operation is planned here as
//! either an immediate synthetic response — status 401 before any network
//! attempt when a token is required but absent — or a fully described
//! request for the transport to carry out. The transport itself, and the
//! JSON bodies it moves, live outside this crate's verified code.

use vstd::prelude::*;
use crate::urlfmt::{format_server_url, normalize_url};

verus! {

/// The HTTP method of a planned request.
#[derive(Clone, Copy, Debug, PartialEq, Eq, Structural)]
pub enum Method {
    Get,
    Post,
    Put,
    Delete,
}

/// What every operation returns: the HTTP status (or a synthetic 401 or
/// 500) and the response body as raw JSON text.
pub struct DVHOSTResponse {
    pub status: u16,
    pub data: String,
}

/// A fully described request for the transport: the resolved URL, the
/// bearer header value when a token is held, and, when a body is present,
/// the content type it must be sent with.
pub struct HttpRequest {
    pub method: Method,
    pub url: String,
    pub body: Option<String>,
    pub bearer: Option<String>,
    pub content_type: Option<String>,
}

/// The outcome of planning an operation: a response produced without any
/// network attempt, or a request to dispatch.
pub enum RequestOutcome {
    Immediate(DVHOSTResponse),
    Dispatch(HttpRequest),
}

/// The panel client's state. `system` is the snapshot cached at
/// construction, as raw JSON text.
pub struct DVHOST {
    pub host: String,
    pub ip: String,
    pub auth_token: Option<String>,
    pub system: Option<String>,
}

/// The base every request URL starts with: the direct IP when one is
/// configured, else the host.
pub open spec fn base_url(c: DVHOST) -> Seq<char> {
    if c.ip@.len() == 0 {
        c.host@
    } else {
        c.ip@
    }
}

/// The content type sent with a body: JSON for POST and PUT, form
/// encoding otherwise.
pub open spec fn content_type_for(method: Method) -> Seq<char> {
    if method == Method::Post || method == Method::Put {
        "application/json"@
    } else {
        "application/x-www-form-urlencoded"@
    }
}

/// What planning an operation yields. An operation that requires a token
/// while none is held short-circuits to status 401 with an empty JSON
/// body and no request; otherwise the request carries the resolved URL,
/// the bearer header whenever a token is held (required or not), and the
/// body with its content type.
pub open spec fn is_plan(
    c: DVHOST,
    path: Seq<char>,
    body: Option<Seq<char>>,
    method: Method,
    require_auth: bool,
    out: RequestOutcome,
) -> bool {
    if require_auth && c.auth_token is None {
        out matches RequestOutcome::Immediate(r) && r.status == 401 && r.data@ == "{}"@
    } else {
        out matches RequestOutcome::Dispatch(q) && {
            &&& q.method == method
            &&& q.url@ == base_url(c) + path
            &&& match c.auth_token {
                Some(t) => q.bearer matches Some(b) && b@ == "Bearer "@ + t@,
                None => q.bearer is None,
            }
            &&& match body {
                Some(d) => (q.body matches Some(s) && s@ == d) && (q.content_type matches Some(ct)
                    && ct@ == content_type_for(method)),
                None => q.body is None && q.content_type is None,
            }
        }
    }
}

/// The view of an optional body.
pub open spec fn body_view(data: Option<String>) -> Option<Seq<char>> {
    match data {
        Some(s) => Some(s@),
        None => None,
    }
}

impl DVHOST {
    /// Builds the client state from its parts: both URLs are normalized;
    /// token and snapshot are whatever construction-time authentication
    /// and the construction-time status fetch produced.
    pub fn new(host: &str, ip: &str, auth_token: Option<String>, system: Option<String>) -> (c:
        DVHOST)
        ensures
            c.host@ == normalize_url(host@),
            c.ip@ == normalize_url(ip@),
            c.auth_token == auth_token,
            c.system == system,
    {
        DVHOST {
            host: format_server_url(host),
            ip: format_server_url(ip),
            auth_token,
            system,
        }
    }

    /// Plans one request: the 401 short-circuit, the URL choice, and the
    /// headers, exactly as `is_plan` states.
    pub fn plan_request(
        &self,
        path: &str,
        data: Option<String>,
        method: Method,
        require_auth: bool,
    ) -> (out: RequestOutcome)
        ensures
            is_plan(*self, path@, body_view(data), method, require_auth, out),
    {
        if require_auth && self.auth_token.is_none() {
            return RequestOutcome::Immediate(
                DVHOSTResponse { status: 401, data: String::from_str("{}") },
            );
        }
        let base = if self.ip.as_str().is_empty() {
            &self.host
        } else {
            &self.ip
        };
        let url = base.clone().concat(path);
        let bearer = match &self.auth_token {
            Some(t) => Some(String::from_str("Bearer ").concat(t.as_str())),
            None => None,
        };
        let content_type = match &data {
            Some(_) => Some(
                if method == Method::Post || method == Method::Put {
                    String::from_str("application/json")
                } else {
                    String::from_str("application/x-www-form-urlencoded")
                },
            ),
            None => None,
        };
        RequestOutcome::Dispatch(HttpRequest { method, url, body: data, bearer, content_type })
    }

    /// The system snapshot: the cached one as an immediate status-200
    /// response when present, else a live authenticated fetch.
    pub fn system(&self) -> (out: RequestOutcome)
        ensures
            match self.system {
                Some(s) => out matches RequestOutcome::Immediate(r) && r.status == 200 && r.data@
                    == s@,
                None => is_plan(*self, "/system"@, None, Method::Get, true, out),
            },
    {
        match &self.system {
            Some(s) => RequestOutcome::Immediate(DVHOSTResponse { status: 200, data: s.clone() }),
            None => self.plan_request("/system", None, Method::Get, true),
        }
    }

    /// The user collection.
    pub fn get_users(&self) -> (out: RequestOutcome)
        ensures
            is_plan(*self, "/users"@, None, Method::Get, true, out),
    {
        self.plan_request("/users", None, Method::Get, true)
    }

    /// One user. On a status-200 response the caller derives the three
    /// presentation fields with `crate::metrics` before handing the
    /// record on.
    pub fn get_user(&self, username: &str) -> (out: RequestOutcome)
        ensures
            is_plan(*self, "/user/"@ + username@, None, Method::Get, true, out),
    {
        let path = String::from_str("/user/").concat(username);
        self.plan_request(path.as_str(), None, Method::Get, true)
    }

    /// Deletes one user.
    pub fn delete_user(&self, username: &str) -> (out: RequestOutcome)
        ensures
            is_plan(*self, "/user/"@ + username@, None, Method::Delete, true, out),
    {
        let path = String::from_str("/user/").concat(username);
        self.plan_request(path.as_str(), None, Method::Delete, true)
    }

    /// Resets one user's traffic counters.
    pub fn reset_user_traffic(&self, username: &str) -> (out: RequestOutcome)
        ensures
            is_plan(*self, "/user/"@ + username@ + "/reset"@, None, Method::Post, true, out),
    {
        let path = String::from_str("/user/").concat(username).concat("/reset");
        self.plan_request(path.as_str(), None, Method::Post, true)
    }

    /// Revokes one user's subscription link.
    pub fn revoke_user_sub(&self, username: &str) -> (out: RequestOutcome)
        ensures
            is_plan(*self, "/user/"@ + username@ + "/revoke"@, None, Method::Post, true, out),
    {
        let path = String::from_str("/user/").concat(username).concat("/revoke");
        self.plan_request(path.as_str(), None, Method::Post, true)
    }

    /// Subscription info for one subscription link.
    pub fn sub_info(&self, sub_link: &str) -> (out: RequestOutcome)
        ensures
            is_plan(*self, "/sub/"@ + sub_link@ + "/info"@, None, Method::Get, true, out),
    {
        let path = String::from_str("/sub/").concat(sub_link).concat("/info");
        self.plan_request(path.as_str(), None, Method::Get, true)
    }

    /// The token request sent at construction: a form-encoded POST that
    /// needs no token of its own.
    pub fn auth_token_request(&self, username: &str, password: &str) -> (out: RequestOutcome)
        ensures
            is_plan(
                *self,
                "/admin/token"@,
                Some("username="@ + username@ + "&password="@ + password@),
                Method::Post,
                false,
                out,
            ),
    {
        let body = String::from_str("username=").concat(username).concat("&password=").concat(
            password,
        );
        self.plan_request("/admin/token", Some(body), Method::Post, false)
    }
}

/// What construction keeps of the token response: the extracted
/// `access_token` only when the request came back with status 200; any
/// other status, and a body the token could not be read from, leave the
/// client unauthenticated.
pub fn auth_token_outcome(status: u16, access_token: Option<String>) -> (r: Option<String>)
    ensures
        r == (if status == 200 {
            access_token
        } else {
            None::<String>
        }),
{
    if status == 200 {
        access_token
    } else {
        None
    }
}

/// The response reported when the transport call itself fails (connection
/// error, timeout, unparsable body): status 500 with an empty JSON body;
/// the underlying error detail is discarded.
pub fn transport_failure_response() -> (r: DVHOSTResponse)
    ensures
        r.status == 500,
        r.data@ == "{}"@,
{
    DVHOSTResponse { status: 500, data: String::from_str("{}") }
}

/// Whether a fetch succeeded and its record may be worked on: only a
/// status-200 response is decorated or edited; any other response is
/// passed back unmodified.
pub fn fetch_succeeded(status: u16) -> (r: bool)
    ensures
        r == (status == 200),
{
    status == 200
}

/// An operation that requires a token, planned on a client that holds
/// none, yields status 401 with an empty JSON body and no request: no
/// network call is ever attempted for it.
pub proof fn lemma_unauthenticated_short_circuit(
    c: DVHOST,
    path: Seq<char>,
    body: Option<Seq<char>>,
    method: Method,
    out: RequestOutcome,
)
    requires
        c.auth_token is None,
        is_plan(c, path, body, method, true, out),
    ensures
        out matches RequestOutcome::Immediate(r) && r.status == 401 && r.data@ == "{}"@,
{
}

} // verus!

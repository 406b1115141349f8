//! The HTTP request model: method and auth enumerations, the request record
//! held as plain values, and the verified decision of exactly what a send
//! performs (which auth scheme, which credentials, whether a body is
//! attached). The I/O shell executes that decision; nothing here touches the
//! network.

use vstd::prelude::*;

use crate::canon::is_valid_json;
use crate::canon::is_valid_json_text;
use crate::scan::char_is_whitespace;
use crate::scan::is_ws_char;
use vstd::string::StrSliceExecFns;

verus! {

#[derive(Debug, Clone, Copy, PartialEq, Eq, Structural)]
pub enum HttpMethod {
    GET,
    POST,
    PUT,
    PATCH,
    DELETE,
}

impl HttpMethod {
    /// The method's wire spelling.
    pub open spec fn spec_name(&self) -> Seq<char> {
        match self {
            HttpMethod::GET => "GET"@,
            HttpMethod::POST => "POST"@,
            HttpMethod::PUT => "PUT"@,
            HttpMethod::PATCH => "PATCH"@,
            HttpMethod::DELETE => "DELETE"@,
        }
    }

    /// The method's wire spelling as an owned string.
    pub fn to_string(&self) -> (r: String)
        ensures
            r@ == self.spec_name(),
    {
        match self {
            HttpMethod::GET => "GET".to_owned(),
            HttpMethod::POST => "POST".to_owned(),
            HttpMethod::PUT => "PUT".to_owned(),
            HttpMethod::PATCH => "PATCH".to_owned(),
            HttpMethod::DELETE => "DELETE".to_owned(),
        }
    }
}

impl Default for HttpMethod {
    fn default() -> (r: Self)
        ensures
            r == HttpMethod::GET,
    {
        HttpMethod::GET
    }
}

#[derive(Debug, Clone, Copy, PartialEq, Eq, Structural)]
pub enum Auth {
    NoAuth,
    Basic,
    Bearer,
}

/// The numeric tag of each auth scheme, as the UI's radio buttons use it.
pub open spec fn auth_index(a: Auth) -> u8 {
    match a {
        Auth::NoAuth => 0,
        Auth::Basic => 1,
        Auth::Bearer => 2,
    }
}

/// The auth scheme a numeric tag selects; unknown tags select no auth.
pub open spec fn auth_of_index(i: u8) -> Auth {
    if i == 0 {
        Auth::NoAuth
    } else if i == 1 {
        Auth::Basic
    } else if i == 2 {
        Auth::Bearer
    } else {
        Auth::NoAuth
    }
}

impl Auth {
    pub fn to_int(&self) -> (r: Option<u8>)
        ensures
            r == Some(auth_index(*self)),
    {
        match self {
            Auth::NoAuth => Some(0),
            Auth::Basic => Some(1),
            Auth::Bearer => Some(2),
        }
    }

    pub fn from_int(i: u8) -> (r: Self)
        ensures
            r == auth_of_index(i),
    {
        match i {
            0 => Auth::NoAuth,
            1 => Auth::Basic,
            2 => Auth::Bearer,
            _ => Auth::NoAuth,
        }
    }
}

impl Default for Auth {
    fn default() -> (r: Self)
        ensures
            r == Auth::NoAuth,
    {
        Auth::NoAuth
    }
}

/// Every character of `s` is whitespace (vacuously true of empty text); the
/// emptiness test the client applies to a request body after trimming.
pub open spec fn all_ws(s: Seq<char>) -> bool {
    forall|k: int| 0 <= k < s.len() ==> is_ws_char(#[trigger] s[k])
}

fn is_all_whitespace(text: &str) -> (r: bool)
    ensures
        r == all_ws(text@),
{
    let n: usize = text.unicode_len();
    let mut k: usize = 0;
    while k < n
        invariant
            n == text@.len(),
            k <= n,
            forall|m: int| 0 <= m < k ==> is_ws_char(#[trigger] text@[m]),
        decreases n - k,
    {
        if !char_is_whitespace(text.get_char(k)) {
            return false;
        }
        k = k + 1;
    }
    true
}

/// A request as the user composed it, held entirely as plain values; headers
/// are (name, value) pairs in order.
#[derive(Debug, Clone)]
pub struct HttpRequest {
    pub method: Option<HttpMethod>,
    pub url: String,
    pub body: Option<String>,
    pub auth: Auth,
    pub token: String,
    pub username: String,
    pub password: String,
    pub headers: Vec<(String, String)>,
}

/// A fresh request: no method, no body, no auth, everything empty.
pub open spec fn is_blank_request(r: HttpRequest) -> bool {
    &&& r.method is None
    &&& r.url@.len() == 0
    &&& r.body is None
    &&& r.auth == Auth::NoAuth
    &&& r.token@.len() == 0
    &&& r.username@.len() == 0
    &&& r.password@.len() == 0
    &&& r.headers@.len() == 0
}

impl Default for HttpRequest {
    fn default() -> (r: Self)
        ensures
            is_blank_request(r),
    {
        HttpRequest {
            method: None,
            url: String::new(),
            body: None,
            auth: Auth::NoAuth,
            token: String::new(),
            username: String::new(),
            password: String::new(),
            headers: Vec::new(),
        }
    }
}

fn clone_headers(headers: &Vec<(String, String)>) -> (r: Vec<(String, String)>)
    ensures
        r@ == headers@,
{
    let mut out: Vec<(String, String)> = Vec::new();
    let n: usize = headers.len();
    let mut k: usize = 0;
    while k < n
        invariant
            n == headers@.len(),
            k <= n,
            out@ == headers@.subrange(0, k as int),
        decreases n - k,
    {
        let name = headers[k].0.clone();
        let value = headers[k].1.clone();
        out.push((name, value));
        proof {
            assert(out@ =~= headers@.subrange(0, (k + 1) as int));
        }
        k = k + 1;
    }
    proof {
        assert(headers@.subrange(0, n as int) =~= headers@);
    }
    out
}

impl HttpRequest {
    /// A request with the given method and URL and everything else blank.
    pub fn new(method: Option<HttpMethod>, url: String) -> (r: Self)
        ensures
            r.method == method,
            r.url == url,
            r.body is None,
            r.auth == Auth::NoAuth,
            r.token@.len() == 0,
            r.username@.len() == 0,
            r.password@.len() == 0,
            r.headers@.len() == 0,
    {
        HttpRequest {
            method,
            url,
            body: None,
            auth: Auth::NoAuth,
            token: String::new(),
            username: String::new(),
            password: String::new(),
            headers: Vec::new(),
        }
    }

    /// Replace this request's header list with a copy of the given pairs;
    /// every other field is kept.
    pub fn set_headers(&mut self, headers: &Vec<(String, String)>)
        ensures
            final(self).headers@ == headers@,
            final(self).method == old(self).method,
            final(self).url == old(self).url,
            final(self).body == old(self).body,
            final(self).auth == old(self).auth,
            final(self).token == old(self).token,
            final(self).username == old(self).username,
            final(self).password == old(self).password,
    {
        self.headers = clone_headers(headers);
    }

    /// Install the client's two default headers: a JSON content type and the
    /// client's user-agent string.
    pub fn set_default_headers(&mut self)
        ensures
            final(self).headers@.len() == 2,
            final(self).headers@[0].0@ == "Content-Type"@,
            final(self).headers@[0].1@ == "application/json"@,
            final(self).headers@[1].0@ == "User-Agent"@,
            final(self).headers@[1].1@ == "PatchLite/0.1"@,
            final(self).method == old(self).method,
            final(self).url == old(self).url,
            final(self).body == old(self).body,
            final(self).auth == old(self).auth,
            final(self).token == old(self).token,
            final(self).username == old(self).username,
            final(self).password == old(self).password,
    {
        let mut hs: Vec<(String, String)> = Vec::new();
        hs.push(("Content-Type".to_owned(), "application/json".to_owned()));
        hs.push(("User-Agent".to_owned(), "PatchLite/0.1".to_owned()));
        self.headers = hs;
    }
}

/// Everything a send performs, decided ahead of the I/O: the resolved
/// credentials, the headers, whether a JSON content type is added, and the
/// body to attach (if any).
#[derive(Debug, Clone)]
pub struct RequestPlan {
    pub method: HttpMethod,
    pub url: String,
    pub auth: Auth,
    pub username: String,
    pub password: String,
    pub token: String,
    pub headers: Vec<(String, String)>,
    pub body: Option<String>,
    pub json_content_type: bool,
}

/// What the client does for a request, as a pure decision: `None` when no
/// method was selected (the caller then performs the client's fallback
/// probe). Otherwise the plan copies method, URL, auth scheme, token and
/// headers; credentials are the composed ones except for a basic-auth PATCH,
/// which the client sends with its fixed built-in credentials; a POST body is
/// attached only when present, not all whitespace and valid JSON, and adds a
/// JSON content type; a PUT, PATCH or DELETE body only when present and
/// non-empty; a GET never carries one.
pub fn plan(req: &HttpRequest) -> (r: Option<RequestPlan>)
    ensures
        r is Some <==> req.method is Some,
        r matches Some(p) ==> {
            &&& req.method matches Some(m) && p.method == m
            &&& p.url@ == req.url@
            &&& p.auth == req.auth
            &&& p.token@ == req.token@
            &&& p.headers@ == req.headers@
            &&& p.username@ == (if p.method == HttpMethod::PATCH && req.auth == Auth::Basic {
                "admin"@
            } else {
                req.username@
            })
            &&& p.password@ == (if p.method == HttpMethod::PATCH && req.auth == Auth::Basic {
                "good password"@
            } else {
                req.password@
            })
            &&& p.method == HttpMethod::GET ==> p.body is None
            &&& p.method == HttpMethod::POST ==> (p.body is Some <==> (req.body matches Some(b)
                && !all_ws(b@) && is_valid_json(b@)))
            &&& (p.method == HttpMethod::PUT || p.method == HttpMethod::PATCH || p.method
                == HttpMethod::DELETE) ==> (p.body is Some <==> (req.body matches Some(b)
                && b@.len() > 0))
            &&& p.body matches Some(pb) ==> (req.body matches Some(b) && pb@ == b@)
            &&& p.json_content_type == (p.method == HttpMethod::POST)
        },
{
    match req.method {
        None => None,
        Some(m) => {
            let patch_basic = m == HttpMethod::PATCH && req.auth == Auth::Basic;
            let username = if patch_basic {
                "admin".to_owned()
            } else {
                req.username.clone()
            };
            let password = if patch_basic {
                "good password".to_owned()
            } else {
                req.password.clone()
            };
            let body: Option<String> = match m {
                HttpMethod::GET => None,
                HttpMethod::POST => match &req.body {
                    Some(b) => {
                        if !is_all_whitespace(b.as_str()) && is_valid_json_text(b.as_str()) {
                            Some(b.clone())
                        } else {
                            None
                        }
                    },
                    None => None,
                },
                _ => match &req.body {
                    Some(b) => {
                        if !b.as_str().is_empty() {
                            Some(b.clone())
                        } else {
                            None
                        }
                    },
                    None => None,
                },
            };
            Some(
                RequestPlan {
                    method: m,
                    url: req.url.clone(),
                    auth: req.auth,
                    username,
                    password,
                    token: req.token.clone(),
                    headers: clone_headers(&req.headers),
                    body,
                    json_content_type: m == HttpMethod::POST,
                },
            )
        },
    }
}

} // verus!

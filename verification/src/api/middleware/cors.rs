//! CORS configuration and response-header computation.

use vstd::prelude::*;
use crate::text::{equals, join, joined, texts};

verus! {

/// Whether a list of allowed origins admits `origin`: some entry is `*` or
/// equals it.
pub open spec fn origin_allowed(origins: Seq<Seq<char>>, origin: Seq<char>) -> bool {
    exists|i: int| 0 <= i < origins.len() && (origins[i] == "*"@ || origins[i] == origin)
}

/// CORS configuration.
#[derive(Debug, Clone)]
pub struct CorsConfig {
    /// Allowed origins; `"*"` admits any origin.
    pub allowed_origins: Vec<String>,
    /// Allowed HTTP methods.
    pub allowed_methods: Vec<String>,
    /// Allowed request headers.
    pub allowed_headers: Vec<String>,
    /// Headers exposed to the browser.
    pub expose_headers: Vec<String>,
    /// Whether credentials (cookies, auth headers) are allowed.
    pub allow_credentials: bool,
    /// Max age for the preflight cache in seconds.
    pub max_age_secs: u32,
}

/// A list of strings holding the given texts, in order.
fn strings(a: &str, rest: &Vec<&str>) -> (r: Vec<String>)
    ensures
        texts(r@) == seq![a@] + rest@.map_values(|s: &str| s@),
{
    let mut out: Vec<String> = Vec::new();
    out.push(String::from_str(a));
    let mut i: usize = 0;
    while i < rest.len()
        invariant
            i <= rest@.len(),
            texts(out@) == seq![a@] + rest@.take(i as int).map_values(|s: &str| s@),
        decreases rest.len() - i,
    {
        let ghost before = out@;
        out.push(String::from_str(rest[i]));
        proof {
            assert(texts(out@) =~= texts(before).push(rest@[i as int]@));
            assert(rest@.take(i + 1).map_values(|s: &str| s@) =~= rest@.take(i as int).map_values(
                |s: &str| s@,
            ).push(rest@[i as int]@));
        }
        i = i + 1;
    }
    proof {
        assert(rest@.take(rest@.len() as int) =~= rest@);
    }
    out
}

impl CorsConfig {
    /// The settings other than the allowed origins are the defaults: the
    /// usual methods, the content-type, authorization and request-id
    /// headers, the request-id header exposed, no credentials, one day of
    /// preflight caching.
    pub open spec fn has_default_policy(&self) -> bool {
        &&& texts(self.allowed_methods@) == seq![
            "GET"@,
            "POST"@,
            "PUT"@,
            "DELETE"@,
            "PATCH"@,
            "OPTIONS"@,
        ]
        &&& texts(self.allowed_headers@) == seq![
            "Content-Type"@,
            "Authorization"@,
            "X-Request-Id"@,
        ]
        &&& texts(self.expose_headers@) == seq!["X-Request-Id"@]
        &&& !self.allow_credentials
        &&& self.max_age_secs == 86400
    }

    /// A configuration with the given allowed origins and the default
    /// policy otherwise.
    pub fn new(allowed_origins: Vec<String>) -> (r: Self)
        ensures
            r.allowed_origins@ == allowed_origins@,
            r.has_default_policy(),
    {
        let methods = strings("GET", &vec!["POST", "PUT", "DELETE", "PATCH", "OPTIONS"]);
        let headers = strings("Content-Type", &vec!["Authorization", "X-Request-Id"]);
        let expose = strings("X-Request-Id", &Vec::new());
        let r = CorsConfig {
            allowed_origins,
            allowed_methods: methods,
            allowed_headers: headers,
            expose_headers: expose,
            allow_credentials: false,
            max_age_secs: 86400,
        };
        proof {
            assert(texts(r.allowed_methods@) =~= seq!["GET"@, "POST"@, "PUT"@, "DELETE"@, "PATCH"@, "OPTIONS"@]);
            assert(texts(r.allowed_headers@) =~= seq!["Content-Type"@, "Authorization"@, "X-Request-Id"@]);
            assert(texts(r.expose_headers@) =~= seq!["X-Request-Id"@]);
        }
        r
    }

    /// Whether the given origin is allowed.
    pub fn is_origin_allowed(&self, origin: &str) -> (r: bool)
        ensures
            r == origin_allowed(texts(self.allowed_origins@), origin@),
    {
        let ghost os = texts(self.allowed_origins@);
        let mut i: usize = 0;
        while i < self.allowed_origins.len()
            invariant
                os == texts(self.allowed_origins@),
                i <= self.allowed_origins@.len(),
                forall|j: int| 0 <= j < i ==> !(os[j] == "*"@ || os[j] == origin@),
            decreases self.allowed_origins.len() - i,
        {
            let o = self.allowed_origins[i].as_str();
            if equals(o, "*") || equals(o, origin) {
                assert(os[i as int] == o@);
                return true;
            }
            i = i + 1;
        }
        false
    }
}

impl Default for CorsConfig {
    /// Any origin, with the default policy.
    fn default() -> (r: Self)
        ensures
            texts(r.allowed_origins@) == seq!["*"@],
            r.has_default_policy(),
    {
        let origins = strings("*", &Vec::new());
        proof {
            assert(texts(origins@) =~= seq!["*"@]);
        }
        CorsConfig::new(origins)
    }
}

/// The CORS response headers for an allowed origin.
#[derive(Debug, Clone)]
pub struct CorsHeaders {
    pub access_control_allow_origin: String,
    pub access_control_allow_methods: String,
    pub access_control_allow_headers: String,
    pub access_control_expose_headers: String,
    pub access_control_allow_credentials: bool,
    pub access_control_max_age: u32,
}

/// The CORS headers for a request from `origin`: `None` when the origin is
/// not allowed; else the origin echoed back, the configured lists joined
/// with `", "`, and the credentials flag and max age.
pub fn cors_headers(config: &CorsConfig, origin: &str) -> (r: Option<CorsHeaders>)
    ensures
        r is Some <==> origin_allowed(texts(config.allowed_origins@), origin@),
        r matches Some(h) ==> {
            &&& h.access_control_allow_origin@ == origin@
            &&& h.access_control_allow_methods@ == joined(texts(config.allowed_methods@), ", "@)
            &&& h.access_control_allow_headers@ == joined(texts(config.allowed_headers@), ", "@)
            &&& h.access_control_expose_headers@ == joined(texts(config.expose_headers@), ", "@)
            &&& h.access_control_allow_credentials == config.allow_credentials
            &&& h.access_control_max_age == config.max_age_secs
        },
{
    if !config.is_origin_allowed(origin) {
        return None;
    }
    Some(
        CorsHeaders {
            access_control_allow_origin: String::from_str(origin),
            access_control_allow_methods: join(&config.allowed_methods, ", "),
            access_control_allow_headers: join(&config.allowed_headers, ", "),
            access_control_expose_headers: join(&config.expose_headers, ", "),
            access_control_allow_credentials: config.allow_credentials,
            access_control_max_age: config.max_age_secs,
        },
    )
}

/// A configuration that lists `*` admits every origin, and one that lists
/// an origin admits it.
pub proof fn lemma_listed_origins_admitted(origins: Seq<Seq<char>>, origin: Seq<char>)
    ensures
        origins.contains("*"@) ==> origin_allowed(origins, origin),
        origins.contains(origin) ==> origin_allowed(origins, origin),
{
    if origins.contains("*"@) {
        let i = choose|i: int| 0 <= i < origins.len() && origins[i] == "*"@;
        assert(0 <= i < origins.len() && (origins[i] == "*"@ || origins[i] == origin));
    }
    if origins.contains(origin) {
        let i = choose|i: int| 0 <= i < origins.len() && origins[i] == origin;
        assert(0 <= i < origins.len() && (origins[i] == "*"@ || origins[i] == origin));
    }
}

} // verus!

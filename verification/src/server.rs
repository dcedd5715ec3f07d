use vstd::prelude::*;

use crate::auth::verify_auth;
use crate::configuration::Configuration;
use crate::kvstore::{batch_map, KvStore};

verus! {

/// The verbs the router knows; anything else falls through to the
/// transport's generic not-found answer.
#[derive(Debug, Clone, Copy, PartialEq, Eq, Structural)]
pub enum Method {
    Get,
    Post,
}

/// What a handler sends back: a status code and a plain-text body.
#[derive(Debug, Clone)]
pub struct Response {
    pub status: u16,
    pub body: String,
}

pub const STATUS_OK: u16 = 200;

pub const STATUS_CREATED: u16 = 201;

pub const STATUS_BAD_REQUEST: u16 = 400;

pub const STATUS_UNAUTHORIZED: u16 = 401;

pub const STATUS_NOT_FOUND: u16 = 404;

/// The key of a record route "/api/kv/{key}": whatever follows the prefix,
/// when it is a single nonempty segment.
pub open spec fn spec_kv_key(path: Seq<char>) -> Option<Seq<char>> {
    if path.len() > 8 && path.subrange(0, 8) == "/api/kv/"@ && (forall|i: int|
        8 <= i < path.len() ==> path[i] != '/') {
        Some(path.skip(8))
    } else {
        None
    }
}

/// A health probe: it bypasses the authentication gate so liveness checks
/// work even when authentication is misconfigured.
pub open spec fn spec_is_health(method: Method, path: Seq<char>) -> bool {
    method is Get && path == "/health"@
}

/// The view of an optional request body: the entries it carries, or
/// nothing when the transport could not parse one.
pub open spec fn spec_body(body: Option<Vec<(String, String)>>) -> Option<
    Seq<(String, String)>,
> {
    match body {
        Some(entries) => Some(entries@),
        None => None,
    }
}

/// What the router answers to an authorized request, and the store it
/// leaves behind: status, body, and the store's new contents.
pub open spec fn spec_dispatch(
    m: Map<Seq<char>, Seq<char>>,
    method: Method,
    path: Seq<char>,
    body: Option<Seq<(String, String)>>,
) -> (u16, Seq<char>, Map<Seq<char>, Seq<char>>) {
    if method is Get && spec_kv_key(path) is Some {
        let k = spec_kv_key(path)->Some_0;
        if m.contains_key(k) {
            (STATUS_OK, m[k], m)
        } else {
            (STATUS_NOT_FOUND, "The specified key does not exist."@, m)
        }
    } else if method is Post && path == "/api/kv"@ {
        match body {
            Some(entries) => (
                STATUS_CREATED,
                "The specified key was successfully created."@,
                m.union_prefer_right(batch_map(entries)),
            ),
            None => (STATUS_BAD_REQUEST, "The request body is malformed."@, m),
        }
    } else {
        (STATUS_NOT_FOUND, "The requested resource was not found."@, m)
    }
}

/// Holds when a response and the store's new contents are exactly what
/// `spec_dispatch` prescribes for the request.
pub open spec fn spec_dispatched(
    m0: Map<Seq<char>, Seq<char>>,
    m1: Map<Seq<char>, Seq<char>>,
    r: Response,
    method: Method,
    path: Seq<char>,
    body: Option<Seq<(String, String)>>,
) -> bool {
    r.status == spec_dispatch(m0, method, path, body).0 && r.body@ == spec_dispatch(
        m0,
        method,
        path,
        body,
    ).1 && m1 == spec_dispatch(m0, method, path, body).2
}

fn str_eq(a: &str, b: &str) -> (r: bool)
    ensures
        r == (a@ == b@),
{
    String::from_str(a) == String::from_str(b)
}

/// Picks the key out of a record route "/api/kv/{key}".
fn parse_kv_key<'a>(path: &'a str) -> (r: Option<&'a str>)
    ensures
        r matches Some(k) ==> spec_kv_key(path@) == Some(k@),
        r is None ==> spec_kv_key(path@) is None,
{
    let n = path.unicode_len();
    if n <= 8 {
        return None;
    }
    let prefix = path.substring_char(0, 8);
    if !str_eq(prefix, "/api/kv/") {
        return None;
    }
    let key = path.substring_char(8, n);
    let klen = key.unicode_len();
    let mut i: usize = 0;
    while i < klen
        invariant
            i <= klen,
            klen == key@.len(),
            key@ == path@.skip(8),
            path@.len() > 8,
            path@.subrange(0, 8) == "/api/kv/"@,
            forall|j: int| 0 <= j < i ==> key@[j] != '/',
        decreases klen - i,
    {
        if key.get_char(i) == '/' {
            proof {
                assert(path@[8 + i] == '/');
            }
            return None;
        }
        i += 1;
    }
    proof {
        assert(forall|j: int| 8 <= j < path@.len() ==> path@[j] == key@[j - 8] && path@[j] != '/');
    }
    Some(key)
}

/// Answers a read of one key: the record's value with a found status, or a
/// not-found status with an explanatory message.
pub fn get_data(store: &KvStore, key: String) -> (r: Response)
    ensures
        store@.contains_key(key@) ==> r.status == STATUS_OK && r.body@ == store@[key@],
        !store@.contains_key(key@) ==> r.status == STATUS_NOT_FOUND && r.body@
            == "The specified key does not exist."@,
{
    match store.get(key) {
        Some(v) => Response { status: STATUS_OK, body: v },
        None => Response {
            status: STATUS_NOT_FOUND,
            body: String::from_str("The specified key does not exist."),
        },
    }
}

/// Upserts a batch of pairs into the store and confirms with a created
/// status.
pub fn post_data(store: &mut KvStore, data: Vec<(String, String)>) -> (r: Response)
    ensures
        final(store)@ == old(store)@.union_prefer_right(batch_map(data@)),
        r.status == STATUS_CREATED,
        r.body@ == "The specified key was successfully created."@,
{
    store.set(data);
    Response {
        status: STATUS_CREATED,
        body: String::from_str("The specified key was successfully created."),
    }
}

/// Routes an authorized request: a read of one key, a batch
/// write, or the generic not-found answer; a write whose body the
/// transport could not parse is rejected before it reaches the store.
fn dispatch(store: &mut KvStore, method: Method, path: &str, body: Option<Vec<(String, String)>>)
    -> (r: Response)
    ensures
        spec_dispatched(old(store)@, final(store)@, r, method, path@, spec_body(body)),
{
    match method {
        Method::Get => {
            match parse_kv_key(path) {
                Some(key) => get_data(&*store, String::from_str(key)),
                None => Response {
                    status: STATUS_NOT_FOUND,
                    body: String::from_str("The requested resource was not found."),
                },
            }
        },
        Method::Post => {
            if str_eq(path, "/api/kv") {
                match body {
                    Some(data) => post_data(store, data),
                    None => Response {
                        status: STATUS_BAD_REQUEST,
                        body: String::from_str("The request body is malformed."),
                    },
                }
            } else {
                Response {
                    status: STATUS_NOT_FOUND,
                    body: String::from_str("The requested resource was not found."),
                }
            }
        },
    }
}

/// Serves one request: a health probe is answered directly, bypassing the
/// gate; everything else passes the authentication gate first, is turned
/// away with an unauthorized status when its credential does not pass, and is routed
/// to its handler otherwise.
pub fn handle_request(
    store: &mut KvStore,
    config: &Configuration,
    method: Method,
    path: &str,
    auth_header: Option<String>,
    body: Option<Vec<(String, String)>>,
) -> (r: Response)
    ensures
        spec_is_health(method, path@) ==> r.status == STATUS_OK && r.body@ == "OK"@ && final(store)@ == old(store)@,
        !spec_is_health(method, path@) && !config.authentication.enabled ==> spec_dispatched(
            old(store)@,
            final(store)@,
            r,
            method,
            path@,
            spec_body(body),
        ),
        !spec_is_health(method, path@) && config.authentication.enabled && auth_header is None
            ==> r.status == STATUS_UNAUTHORIZED && r.body@ == "Unauthorized"@ && final(store)@
            == old(store)@,
        !spec_is_health(method, path@) && config.authentication.enabled && auth_header is Some ==> (
        (r.status == STATUS_UNAUTHORIZED && r.body@ == "Unauthorized"@ && final(store)@ == old(store)@) || spec_dispatched(old(store)@, final(store)@, r, method, path@, spec_body(body))),
{
    let is_health = match method {
        Method::Get => str_eq(path, "/health"),
        Method::Post => false,
    };
    if is_health {
        return Response { status: STATUS_OK, body: String::from_str("OK") };
    }
    match verify_auth(auth_header, config) {
        Ok(_) => dispatch(store, method, path, body),
        Err(_) => Response { status: STATUS_UNAUTHORIZED, body: String::from_str("Unauthorized") },
    }
}

/// The service: it owns the configuration that authentication reads; the surrounding
/// transport binds the address, owns the store, and hands every request to
/// `handle_request`.
pub struct Server {
    pub configuration: Configuration,
}

impl Server {
    pub fn new(configuration: Configuration) -> (s: Server)
        ensures
            s.configuration == configuration,
    {
        Server { configuration }
    }

    /// Serves one request against this server's configuration.
    pub fn handle(
        &self,
        store: &mut KvStore,
        method: Method,
        path: &str,
        auth_header: Option<String>,
        body: Option<Vec<(String, String)>>,
    ) -> (r: Response)
        ensures
            spec_is_health(method, path@) ==> r.status == STATUS_OK && r.body@ == "OK"@ && final(store)@ == old(store)@,
            !spec_is_health(method, path@) && !self.configuration.authentication.enabled
                ==> spec_dispatched(
                old(store)@,
                final(store)@,
                r,
                method,
                path@,
                spec_body(body),
            ),
            !spec_is_health(method, path@) && self.configuration.authentication.enabled
                && auth_header is None ==> r.status == STATUS_UNAUTHORIZED && r.body@
                == "Unauthorized"@ && final(store)@ == old(store)@,
            !spec_is_health(method, path@) && self.configuration.authentication.enabled
                && auth_header is Some ==> ((r.status == STATUS_UNAUTHORIZED && r.body@
                == "Unauthorized"@ && final(store)@ == old(store)@) || spec_dispatched(
                old(store)@,
                final(store)@,
                r,
                method,
                path@,
                spec_body(body),
            )),
    {
        handle_request(store, &self.configuration, method, path, auth_header, body)
    }
}

} // verus!

use vstd::prelude::*;

use crate::proxy_pass_to::ProxyPassTo;
use crate::text::{has_prefix, starts_with_exec, str_eq};

verus! {

/// Why a request could not be served.
#[derive(Clone, Copy, Debug, PartialEq, Eq, Structural)]
pub enum ProxyPassError {
    NoHostFound,
    NoLocationFound,
    Forbidden,
    Timeout,
    ConnectionIsDisposed,
    UpstreamIo,
    SshSessionError,
}

impl ProxyPassError {
    pub fn is_timeout(&self) -> (r: bool)
        ensures
            r == (*self == ProxyPassError::Timeout),
    {
        match self {
            ProxyPassError::Timeout => true,
            _ => false,
        }
    }
}

/// A path prefix of a host and where its requests go.
pub struct Location {
    pub path_prefix: String,
    pub proxy_pass: ProxyPassTo,
    pub allowed_users: Option<Vec<String>>,
}

/// The locations of one host, in declaration order.
pub struct HostConfiguration {
    pub host: String,
    pub locations: Vec<Location>,
}

pub open spec fn location_matches(l: Location, path: Seq<char>) -> bool {
    has_prefix(path, l.path_prefix@)
}

/// Location `i` is the one a request for `path` goes to: its prefix matches,
/// no matching prefix is longer, and no earlier location has a matching
/// prefix of the same length.
pub open spec fn is_best_location(locations: Seq<Location>, path: Seq<char>, i: int) -> bool {
    &&& 0 <= i < locations.len()
    &&& location_matches(locations[i], path)
    &&& forall|j: int|
        0 <= j < locations.len() && #[trigger] location_matches(locations[j], path) ==> {
            ||| locations[j].path_prefix@.len() < locations[i].path_prefix@.len()
            ||| (locations[j].path_prefix@.len() == locations[i].path_prefix@.len() && i <= j)
        }
}

pub open spec fn no_location_matches(locations: Seq<Location>, path: Seq<char>) -> bool {
    forall|j: int| 0 <= j < locations.len() ==> !#[trigger] location_matches(locations[j], path)
}

/// Picks the location of a request by longest prefix first, ties broken by
/// declaration order.
pub fn find_location(locations: &Vec<Location>, path: &str) -> (r: Option<usize>)
    ensures
        r matches Some(i) ==> is_best_location(locations@, path@, i as int),
        r is None ==> no_location_matches(locations@, path@),
{
    let mut best: Option<usize> = None;
    let mut best_len: usize = 0;
    let mut i: usize = 0;
    while i < locations.len()
        invariant
            i <= locations@.len(),
            best matches Some(b) ==> {
                &&& b < i
                &&& location_matches(locations@[b as int], path@)
                &&& best_len == locations@[b as int].path_prefix@.len()
                &&& forall|j: int|
                    0 <= j < i && #[trigger] location_matches(locations@[j], path@) ==> {
                        ||| locations@[j].path_prefix@.len() < best_len
                        ||| (locations@[j].path_prefix@.len() == best_len && b <= j)
                    }
            },
            best is None ==> forall|j: int|
                0 <= j < i ==> !#[trigger] location_matches(locations@[j], path@),
        decreases locations@.len() - i,
    {
        let prefix = locations[i].path_prefix.as_str();
        if starts_with_exec(path, prefix) {
            let len = prefix.unicode_len();
            match best {
                None => {
                    best = Some(i);
                    best_len = len;
                },
                Some(_) => {
                    if len > best_len {
                        best = Some(i);
                        best_len = len;
                    }
                },
            }
        }
        i = i + 1;
    }
    best
}

/// Whether the identity is let through a location's allow-list.
pub open spec fn user_allowed(allowed: Option<Vec<String>>, identity: Option<String>) -> bool {
    allowed is None || (identity is Some && exists|k: int|
        0 <= k < allowed->Some_0@.len() && #[trigger] allowed->Some_0@[k]@ == identity->Some_0@)
}

/// Checks a location's allow-list against the client certificate's common name.
pub fn is_user_allowed(allowed: &Option<Vec<String>>, identity: &Option<String>) -> (r: bool)
    ensures
        r == user_allowed(*allowed, *identity),
{
    match allowed {
        None => true,
        Some(users) => match identity {
            None => false,
            Some(cn) => {
                let mut k: usize = 0;
                while k < users.len()
                    invariant
                        k <= users@.len(),
                        allowed is Some && allowed->Some_0@ == users@,
                        identity is Some && identity->Some_0@ == cn@,
                        forall|t: int| 0 <= t < k ==> #[trigger] users@[t]@ != cn@,
                    decreases users@.len() - k,
                {
                    if str_eq(users[k].as_str(), cn.as_str()) {
                        assert(users@[k as int]@ == cn@);
                        return true;
                    }
                    k = k + 1;
                }
                false
            },
        },
    }
}

/// Host `h` is the first configuration declared for `host`.
pub open spec fn is_host_configuration(hosts: Seq<HostConfiguration>, host: Seq<char>, h: int) -> bool {
    &&& 0 <= h < hosts.len()
    &&& hosts[h].host@ == host
    &&& forall|j: int| 0 <= j < h ==> #[trigger] hosts[j].host@ != host
}

pub open spec fn no_host_configuration(hosts: Seq<HostConfiguration>, host: Seq<char>) -> bool {
    forall|j: int| 0 <= j < hosts.len() ==> #[trigger] hosts[j].host@ != host
}

/// Finds the configuration of a host.
pub fn find_host(hosts: &Vec<HostConfiguration>, host: &str) -> (r: Option<usize>)
    ensures
        r matches Some(h) ==> is_host_configuration(hosts@, host@, h as int),
        r is None ==> no_host_configuration(hosts@, host@),
{
    let mut k: usize = 0;
    while k < hosts.len()
        invariant
            k <= hosts@.len(),
            forall|t: int| 0 <= t < k ==> #[trigger] hosts@[t].host@ != host@,
        decreases hosts@.len() - k,
    {
        if str_eq(hosts[k].host.as_str(), host) {
            return Some(k);
        }
        k = k + 1;
    }
    None
}

/// Where a request goes: the host configuration and the location within it,
/// or why it is refused.
pub open spec fn route_of(
    hosts: Seq<HostConfiguration>,
    host: Seq<char>,
    path: Seq<char>,
    identity: Option<String>,
    r: Result<(usize, usize), ProxyPassError>,
) -> bool {
    match r {
        Ok((h, l)) => {
            &&& is_host_configuration(hosts, host, h as int)
            &&& is_best_location(hosts[h as int].locations@, path, l as int)
            &&& user_allowed(hosts[h as int].locations@[l as int].allowed_users, identity)
        },
        Err(ProxyPassError::NoHostFound) => no_host_configuration(hosts, host),
        Err(ProxyPassError::NoLocationFound) => exists|h: int|
            is_host_configuration(hosts, host, h) && no_location_matches(hosts[h].locations@, path),
        Err(ProxyPassError::Forbidden) => exists|h: int, l: int|
            is_host_configuration(hosts, host, h) && is_best_location(hosts[h].locations@, path, l)
                && !user_allowed(hosts[h].locations@[l].allowed_users, identity),
        Err(_) => false,
    }
}

/// Resolves the host, matches the location and enforces its allow-list.
pub fn route_request(
    hosts: &Vec<HostConfiguration>,
    host: &str,
    path: &str,
    identity: &Option<String>,
) -> (r: Result<(usize, usize), ProxyPassError>)
    ensures
        route_of(hosts@, host@, path@, *identity, r),
{
    let h = match find_host(hosts, host) {
        Some(h) => h,
        None => return Err(ProxyPassError::NoHostFound),
    };
    let l = match find_location(&hosts[h].locations, path) {
        Some(l) => l,
        None => return Err(ProxyPassError::NoLocationFound),
    };
    if !is_user_allowed(&hosts[h].locations[l].allowed_users, identity) {
        return Err(ProxyPassError::Forbidden);
    }
    Ok((h, l))
}

/// Headers that concern a single connection and are not passed on to the
/// other side (names in lower case, as they are read off the wire).
pub open spec fn is_hop_by_hop_spec(name: Seq<char>) -> bool {
    ||| name == "connection"@
    ||| name == "keep-alive"@
    ||| name == "proxy-authenticate"@
    ||| name == "proxy-authorization"@
    ||| name == "te"@
    ||| name == "trailer"@
    ||| name == "transfer-encoding"@
    ||| name == "upgrade"@
}

/// Whether a header is dropped when a response is copied back.
pub fn is_hop_by_hop(name: &str) -> (r: bool)
    ensures
        r == is_hop_by_hop_spec(name@),
{
    str_eq(name, "connection") || str_eq(name, "keep-alive") || str_eq(name, "proxy-authenticate")
        || str_eq(name, "proxy-authorization") || str_eq(name, "te") || str_eq(name, "trailer")
        || str_eq(name, "transfer-encoding") || str_eq(name, "upgrade")
}

/// The answer sent to the client when a request fails.
pub struct ErrorResponse {
    pub status_code: u16,
    pub body: String,
}

pub open spec fn error_status(e: ProxyPassError) -> u16 {
    match e {
        ProxyPassError::NoHostFound | ProxyPassError::NoLocationFound => 404,
        ProxyPassError::Forbidden => 403,
        _ => 500,
    }
}

pub open spec fn error_body(e: ProxyPassError) -> Seq<char> {
    match e {
        ProxyPassError::NoHostFound | ProxyPassError::NoLocationFound => "Not Found"@,
        ProxyPassError::Forbidden => "Forbidden"@,
        ProxyPassError::Timeout => "Timeout"@,
        _ => "Internal Server Error"@,
    }
}

/// The response for a failed request.
pub fn error_response(e: ProxyPassError) -> (r: ErrorResponse)
    ensures
        r.status_code == error_status(e),
        r.body@ == error_body(e),
{
    if e.is_timeout() {
        return ErrorResponse { status_code: 500, body: "Timeout".to_owned() };
    }
    match e {
        ProxyPassError::NoHostFound | ProxyPassError::NoLocationFound => ErrorResponse {
            status_code: 404,
            body: "Not Found".to_owned(),
        },
        ProxyPassError::Forbidden => ErrorResponse {
            status_code: 403,
            body: "Forbidden".to_owned(),
        },
        _ => ErrorResponse { status_code: 500, body: "Internal Server Error".to_owned() },
    }
}

} // verus!

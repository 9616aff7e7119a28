//! Where the engine listens.

use vstd::prelude::*;

verus! {

/// The address of the engine.
#[derive(Debug)]
pub enum Endpoint {
    /// A Unix-domain socket at this path.
    Unix(String),
    /// A TCP socket at this `host:port`.
    Tcp(String),
}

/// The path of the socket where no address is configured.
pub open spec fn default_socket() -> Seq<char> {
    "/var/run/docker.sock"@
}

/// `s` begins with `prefix`.
pub open spec fn has_prefix(s: Seq<char>, prefix: Seq<char>) -> bool {
    prefix.len() <= s.len() && s.take(prefix.len() as int) == prefix
}

/// The address that the configured one, `docker_host`, stands for:
/// the socket named behind `unix://`, the host and port named behind
/// `tcp://`, the default socket where nothing is configured, and none
/// for any other text.
pub open spec fn address_of(docker_host: Option<Seq<char>>) -> Option<(bool, Seq<char>)> {
    match docker_host {
        None => Some((true, default_socket())),
        Some(host) => if has_prefix(host, "unix://"@) {
            Some((true, host.skip(7)))
        } else if has_prefix(host, "tcp://"@) {
            Some((false, host.skip(6)))
        } else {
            None
        },
    }
}

/// What stands behind `prefix` in `s`, where `s` begins with it.
pub fn strip_prefix<'a>(s: &'a str, prefix: &str) -> (r: Option<&'a str>)
    ensures
        r is Some <==> has_prefix(s@, prefix@),
        r matches Some(rest) ==> rest@ == s@.skip(prefix@.len() as int),
{
    let n = s.unicode_len();
    let m = prefix.unicode_len();
    if m > n {
        return None;
    }
    let mut i: usize = 0;
    while i < m
        invariant
            i <= m <= n,
            n == s@.len(),
            m == prefix@.len(),
            forall|j: int| 0 <= j < i ==> s@[j] == prefix@[j],
        decreases m - i,
    {
        if s.get_char(i) != prefix.get_char(i) {
            assert(s@.take(m as int)[i as int] != prefix@[i as int]);
            return None;
        }
        i += 1;
    }
    assert(s@.take(m as int) =~= prefix@);
    let rest = s.substring_char(m, n);
    assert(rest@ =~= s@.skip(m as int));
    Some(rest)
}

/// The address of the engine, given the value of `DOCKER_HOST` where it
/// is set: see [`address_of`].
pub fn endpoint_for(docker_host: Option<&str>) -> (r: Option<Endpoint>)
    ensures
        match address_of(docker_host.deep_view()) {
            None => r is None,
            Some((true, path)) => r matches Some(Endpoint::Unix(p)) && p@ == path,
            Some((false, host)) => r matches Some(Endpoint::Tcp(h)) && h@ == host,
        },
{
    proof {
        reveal_strlit("unix://");
        reveal_strlit("tcp://");
    }
    match docker_host {
        None => Some(Endpoint::Unix("/var/run/docker.sock".to_owned())),
        Some(host) => match strip_prefix(host, "unix://") {
            Some(path) => Some(Endpoint::Unix(path.to_owned())),
            None => match strip_prefix(host, "tcp://") {
                Some(rest) => Some(Endpoint::Tcp(rest.to_owned())),
                None => None,
            },
        },
    }
}

} // verus!

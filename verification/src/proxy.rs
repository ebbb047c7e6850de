//! Proxy settings.

use crate::text::{chars_of, split, str_eq, trim, trim_bounds};
use std::sync::Arc;
use vstd::prelude::*;
use vstd::string::*;

verus! {

/// The URI type of the `http` crate.
#[verifier::external_type_specification]
#[verifier::external_body]
pub struct ExUri(http::Uri);

/// The protocol spoken with a proxy.
#[derive(Debug, Clone, Copy, PartialEq, Eq, Structural)]
pub enum Proto {
    Http,
    Https,
    Socks4,
    Socks4A,
    Socks5,
}

impl Proto {
    /// The protocol that the scheme of a proxy's URI stands for.
    pub open spec fn of_scheme(scheme: Seq<char>) -> Option<Proto> {
        if scheme == "http"@ {
            Some(Proto::Http)
        } else if scheme == "https"@ {
            Some(Proto::Https)
        } else if scheme == "socks4"@ {
            Some(Proto::Socks4)
        } else if scheme == "socks4a"@ {
            Some(Proto::Socks4A)
        } else if scheme == "socks5"@ || scheme == "socks"@ {
            Some(Proto::Socks5)
        } else {
            None
        }
    }

    /// The protocol that the scheme of a proxy's URI stands for: `http`,
    /// `https`, `socks4`, `socks4a`, and `socks5` or `socks` for SOCKS 5.
    pub fn from_scheme(scheme: &str) -> (r: Option<Proto>)
        ensures
            r == Proto::of_scheme(scheme@),
    {
        if str_eq(scheme, "http") {
            Some(Proto::Http)
        } else if str_eq(scheme, "https") {
            Some(Proto::Https)
        } else if str_eq(scheme, "socks4") {
            Some(Proto::Socks4)
        } else if str_eq(scheme, "socks4a") {
            Some(Proto::Socks4A)
        } else if str_eq(scheme, "socks5") || str_eq(scheme, "socks") {
            Some(Proto::Socks5)
        } else {
            None
        }
    }

    /// Whether the proxy is asked with `CONNECT` to open a tunnel.
    pub open spec fn connects(self) -> bool {
        self == Proto::Http || self == Proto::Https
    }

    /// Whether the proxy is asked with `CONNECT` to open a tunnel: true of
    /// the HTTP and HTTPS proxies, false of the SOCKS ones.
    pub fn is_connect(&self) -> (r: bool)
        ensures
            r == self.connects(),
    {
        match self {
            Proto::Http => true,
            Proto::Https => true,
            _ => false,
        }
    }
}

/// `Arc::clone`: another pointer to the same value.
#[verifier::external_body]
pub(crate) fn arc_clone<T>(a: &Arc<T>) -> (r: Arc<T>)
    ensures
        r == *a,
{
    Arc::clone(a)
}

/// The name of the environment variable that is asked for a proxy in the
/// place `index`; the first that is set decides. There are six.
pub open spec fn proxy_variable_name(index: usize) -> Option<Seq<char>> {
    if index == 0 {
        Some("ALL_PROXY"@)
    } else if index == 1 {
        Some("all_proxy"@)
    } else if index == 2 {
        Some("HTTPS_PROXY"@)
    } else if index == 3 {
        Some("https_proxy"@)
    } else if index == 4 {
        Some("HTTP_PROXY"@)
    } else if index == 5 {
        Some("http_proxy"@)
    } else {
        None
    }
}

/// The name of the environment variable that is asked for a proxy in the
/// place `index`.
pub fn proxy_variable(index: usize) -> (r: Option<&'static str>)
    ensures
        match r {
            Some(name) => proxy_variable_name(index) == Some(name@),
            None => proxy_variable_name(index) is None,
        },
{
    if index == 0 {
        Some("ALL_PROXY")
    } else if index == 1 {
        Some("all_proxy")
    } else if index == 2 {
        Some("HTTPS_PROXY")
    } else if index == 3 {
        Some("https_proxy")
    } else if index == 4 {
        Some("HTTP_PROXY")
    } else if index == 5 {
        Some("http_proxy")
    } else {
        None
    }
}

/// Whether a value of the environment is set to something.
pub open spec fn is_set(value: Option<String>) -> bool {
    value matches Some(v) && v@.len() > 0
}

/// The place of the first of `values` that is set to something; their
/// number where none is.
pub open spec fn first_set(values: Seq<Option<String>>) -> int
    decreases values.len(),
{
    if values.len() == 0 {
        0
    } else if is_set(values[0]) {
        0
    } else {
        1 + first_set(values.drop_first())
    }
}

/// Picks, of the values of the variables in the order in which they are
/// asked, the first that is set to something.
pub fn pick_set(values: &Vec<Option<String>>) -> (r: Option<usize>)
    ensures
        match r {
            Some(i) => i == first_set(values@) && i < values@.len(),
            None => first_set(values@) == values@.len(),
        },
{
    let mut i: usize = 0;
    proof {
        assert(values@.skip(0) =~= values@);
    }
    while i < values.len()
        invariant
            i <= values.len(),
            first_set(values@) == i + first_set(values@.skip(i as int)),
        decreases values.len() - i,
    {
        let set = match &values[i] {
            Some(v) => !v.as_str().is_empty(),
            None => false,
        };
        proof {
            assert(values@.skip(i as int)[0] == values@[i as int]);
            assert(values@.skip(i as int).drop_first() =~= values@.skip(i as int + 1));
        }
        if set {
            return Some(i);
        }
        i += 1;
    }
    None
}

/// Whether an entry of a `NO_PROXY` list covers `host`: `*` covers every
/// host, and any other entry the host of that name and the hosts under it.
pub open spec fn entry_covers(entry: Seq<char>, host: Seq<char>) -> bool {
    &&& entry.len() > 0
    &&& {
        ||| entry == seq!['*']
        ||| entry == host
        ||| {
            &&& entry.len() < host.len()
            &&& host.skip(host.len() - entry.len()) == entry
            &&& (entry[0] == '.' || host[host.len() - entry.len() - 1] == '.')
        }
    }
}

/// Whether one of `entries`, once trimmed, covers `host`.
pub open spec fn any_covers(entries: Seq<Seq<char>>, host: Seq<char>) -> bool
    decreases entries.len(),
{
    entries.len() > 0 && (entry_covers(trim(entries.last()), host) || any_covers(
        entries.drop_last(),
        host,
    ))
}

/// Whether the `NO_PROXY` list `list`, entries separated by commas, covers
/// `host`, so that the host is reached without the proxy.
pub open spec fn no_proxy_covers(list: Seq<char>, host: Seq<char>) -> bool {
    any_covers(split(list, ','), host)
}

/// Whether the entry `cs[from..to]` covers `host`.
fn covers_at(cs: &Vec<char>, from: usize, to: usize, host: &Vec<char>) -> (r: bool)
    requires
        from <= to <= cs.len(),
    ensures
        r == entry_covers(cs@.subrange(from as int, to as int), host@),
{
    let ghost entry = cs@.subrange(from as int, to as int);
    let len = to - from;
    if len == 0 {
        return false;
    }
    if len == 1 && cs[from] == '*' {
        assert(entry =~= seq!['*']);
        return true;
    }
    assert(entry != seq!['*']) by {
        if entry == seq!['*'] {
            assert(entry.len() == 1);
            assert(entry[0] == '*');
        }
    }
    if len > host.len() {
        return false;
    }
    let off = host.len() - len;
    let mut k: usize = 0;
    while k < len
        invariant
            k <= len,
            len == to - from,
            from <= to <= cs.len(),
            off + len == host.len(),
            entry == cs@.subrange(from as int, to as int),
            entry != seq!['*'],
            forall|j: int| 0 <= j < k ==> entry[j] == host@[off + j],
        decreases len - k,
    {
        if cs[from + k] != host[off + k] {
            assert(entry[k as int] != host@.skip(off as int)[k as int]);
            assert(entry != host@) by {
                if entry.len() == host@.len() {
                    assert(entry[k as int] != host@[k as int]);
                }
            }
            return false;
        }
        k += 1;
    }
    assert(host@.skip(off as int) =~= entry);
    if off == 0 {
        assert(host@.skip(0) =~= host@);
        true
    } else {
        cs[from] == '.' || host[off - 1] == '.'
    }
}

/// Whether the `NO_PROXY` list `list` covers `host`.
pub fn bypasses(list: &str, host: &str) -> (r: bool)
    ensures
        r == no_proxy_covers(list@, host@),
{
    let cs = chars_of(list);
    let hs = chars_of(host);
    let n = cs.len();
    let mut found = false;
    let mut start: usize = 0;
    let mut i: usize = 0;
    let ghost mut done: Seq<Seq<char>> = Seq::empty();
    proof {
        assert(cs@.take(0) =~= Seq::<char>::empty());
        assert(done.push(cs@.subrange(0, 0)) =~~= seq![Seq::<char>::empty()]);
    }
    while i < n
        invariant
            n == cs@.len(),
            start <= i <= n,
            split(cs@.take(i as int), ',') == done.push(cs@.subrange(start as int, i as int)),
            found == any_covers(done, hs@),
        decreases n - i,
    {
        let ghost piece = cs@.subrange(start as int, i as int);
        proof {
            assert(cs@.take(i as int + 1).drop_last() =~= cs@.take(i as int));
            assert(done.push(piece).drop_last() =~= done);
        }
        if cs[i] == ',' {
            let (a, b) = trim_bounds(&cs, start, i);
            let here = covers_at(&cs, a, b, &hs);
            found = found || here;
            proof {
                done = done.push(piece);
                assert(cs@.subrange(i as int + 1, i as int + 1) =~= Seq::<char>::empty());
            }
            start = i + 1;
        } else {
            proof {
                assert(piece.push(cs@[i as int]) =~= cs@.subrange(start as int, i as int + 1));
            }
        }
        i += 1;
    }
    let ghost piece = cs@.subrange(start as int, n as int);
    proof {
        assert(cs@.take(n as int) =~= cs@);
        assert(done.push(piece).drop_last() =~= done);
    }
    let (a, b) = trim_bounds(&cs, start, n);
    let here = covers_at(&cs, a, b, &hs);
    found || here
}

/// A proxy to send requests through.
#[derive(Debug)]
pub struct Proxy {
    pub proto: Proto,
    pub uri: Arc<http::Uri>,
    pub from_env: bool,
    /// The hosts that are reached without the proxy, as a `NO_PROXY` list.
    pub no_proxy: Option<Arc<String>>,
}

impl Proxy {
    /// A proxy at `uri` that speaks `proto`.
    pub fn new(proto: Proto, uri: http::Uri) -> (r: Self)
        ensures
            r.proto == proto,
            *r.uri == uri,
            !r.from_env,
            r.no_proxy is None,
    {
        Proxy { proto, uri: Arc::new(uri), from_env: false, no_proxy: None }
    }

    /// The proxy that the environment names: one at `uri` that speaks
    /// `proto`, but not for the hosts that the list `no_proxy` covers.
    pub fn from_env(proto: Proto, uri: http::Uri, no_proxy: Option<String>) -> (r: Self)
        ensures
            r.proto == proto,
            *r.uri == uri,
            r.from_env,
            match no_proxy {
                Some(list) => r.no_proxy is Some && *r.no_proxy->0 == list,
                None => r.no_proxy is None,
            },
    {
        let no_proxy = match no_proxy {
            Some(list) => Some(Arc::new(list)),
            None => None,
        };
        Proxy { proto, uri: Arc::new(uri), from_env: true, no_proxy }
    }

    /// Whether `host` is reached without the proxy.
    pub open spec fn spares(self, host: Seq<char>) -> bool {
        self.no_proxy is Some && no_proxy_covers(self.no_proxy->0@, host)
    }

    /// Whether `host` is reached without the proxy: whether the proxy has a
    /// `NO_PROXY` list and the list covers the host.
    pub fn is_no_proxy(&self, host: &str) -> (r: bool)
        ensures
            r == self.spares(host@),
    {
        match &self.no_proxy {
            Some(list) => bypasses(list.as_str(), host),
            None => false,
        }
    }

    /// The protocol spoken with the proxy.
    pub fn proto(&self) -> (r: Proto)
        ensures
            r == self.proto,
    {
        self.proto
    }

    /// Where the proxy is.
    pub fn uri(&self) -> (r: &http::Uri)
        ensures
            *r == *self.uri,
    {
        &*self.uri
    }

    /// Whether the setting was read from the environment.
    pub fn is_from_env(&self) -> (r: bool)
        ensures
            r == self.from_env,
    {
        self.from_env
    }
}

impl Clone for Proxy {
    fn clone(&self) -> (r: Self)
        ensures
            r == *self,
    {
        Proxy {
            proto: self.proto,
            uri: arc_clone(&self.uri),
            from_env: self.from_env,
            no_proxy: match &self.no_proxy {
                Some(list) => Some(arc_clone(list)),
                None => None,
            },
        }
    }
}

} // verus!

//! The HTTP(S) proxy: which upstream a request goes to.
use vstd::prelude::*;
use vstd::string::*;
use crate::route::{RouteEntry, RouteView, routes_view};
use crate::store::{RouteStore, routes_of};
use crate::text::{
    trim_end,
    trim_end_matches,
    str_eq,
    starts_with,
    chars_from,
    chars_to,
    concat,
    owned,
    find_char,
    first_index_of,
    suffix_from,
};

verus! {

/// Whether the proxy server is up.
pub struct ProxyServer {
    running: bool,
}

impl View for ProxyServer {
    type V = bool;

    closed spec fn view(&self) -> bool {
        self.running
    }
}

impl ProxyServer {
    /// A server that is not running.
    pub fn new() -> (s: Self)
        ensures
            !s@,
    {
        ProxyServer { running: false }
    }

    /// Whether the server is running.
    pub fn is_running(&self) -> (r: bool)
        ensures
            r == self@,
    {
        self.running
    }

    /// Records that the server started (`true`) or stopped (`false`).
    pub fn set_running(&mut self, running: bool)
        ensures
            final(self)@ == running,
    {
        self.running = running;
    }
}

/// A route path that covers every request path: empty or `/`.
pub open spec fn is_root_path(p: Seq<char>) -> bool {
    p.len() == 0 || p == seq!['/']
}

/// Whether a route with path `route_path` covers the request path `req_path`.
pub open spec fn path_matches(route_path: Seq<char>, req_path: Seq<char>) -> bool {
    is_root_path(route_path) || route_path.is_prefix_of(req_path)
}

/// Whether route `r` serves a request for `host` (already without trailing dots) and `req_path`.
pub open spec fn proxy_matches(r: RouteView, host: Seq<char>, req_path: Seq<char>) -> bool {
    trim_end(r.domain, '.') == host && path_matches(r.path, req_path)
}

/// What is left of the request path once the route's path is taken off;
/// `/` when nothing is left.
pub open spec fn rest_of_path(route_path: Seq<char>, req_path: Seq<char>) -> Seq<char> {
    if is_root_path(route_path) {
        req_path
    } else if route_path.is_prefix_of(req_path) {
        let p = req_path.skip(route_path.len() as int);
        if p.len() == 0 {
            seq!['/']
        } else {
            p
        }
    } else {
        req_path
    }
}

/// The URL a request is sent to: the route's upstream without trailing
/// slashes, followed by the rest of the request path.
pub open spec fn upstream_url(r: RouteView, req_path: Seq<char>) -> Seq<char> {
    trim_end(r.upstream, '/') + rest_of_path(r.path, req_path)
}

/// The upstream URL given by the first route that serves `host` and `req_path`.
pub open spec fn proxy_target(routes: Seq<RouteView>, host: Seq<char>, req_path: Seq<char>) -> Option<
    Seq<char>,
>
    decreases routes.len(),
{
    if routes.len() == 0 {
        None
    } else if proxy_matches(routes[0], host, req_path) {
        Some(upstream_url(routes[0], req_path))
    } else {
        proxy_target(routes.drop_first(), host, req_path)
    }
}

/// The value of the `X-Forwarded-Port` header for a `Host` value: the text
/// between its first `:` and the next one (or the end), or `80` when there is no `:`.
pub open spec fn port_field(host: Seq<char>) -> Seq<char> {
    match first_index_of(host, ':') {
        None => seq!['8', '0'],
        Some(i) => {
            let t = suffix_from(host, i + 1);
            match first_index_of(t, ':') {
                None => t,
                Some(j) => t.take(j),
            }
        },
    }
}

/// Whether `p` is empty or `/`.
pub fn is_root(p: &str) -> (r: bool)
    ensures
        r == is_root_path(p@),
{
    let n = p.unicode_len();
    if n == 0 {
        return true;
    }
    if n == 1 && p.get_char(0) == '/' {
        assert(p@ =~= seq!['/']);
        return true;
    }
    false
}

/// The URL that a request with path `req_path` is sent to through route `entry`.
pub fn upstream_for(entry: &RouteEntry, req_path: &str) -> (r: String)
    ensures
        r@ == upstream_url(entry@, req_path@),
{
    let base = trim_end_matches(entry.upstream.as_str(), '/');
    let rest = if is_root(entry.path.as_str()) {
        owned(req_path)
    } else if starts_with(req_path, entry.path.as_str()) {
        let k = entry.path.as_str().unicode_len();
        let p = chars_from(req_path, k);
        assert(p@ =~= req_path@.skip(k as int));
        if p.as_str().unicode_len() == 0 {
            proof {
                reveal_strlit("/");
            }
            owned("/")
        } else {
            p
        }
    } else {
        owned(req_path)
    };
    concat(base.as_str(), rest.as_str())
}

/// The host name of a request without its trailing dots.
pub fn normalize_host(raw_host: &str) -> (r: String)
    ensures
        r@ == trim_end(raw_host@, '.'),
{
    trim_end_matches(raw_host, '.')
}

/// The upstream URL for a request to `host` (without trailing dots) with path
/// `req_path`: that of the first route serving both, or none.
pub fn resolve_upstream(store: &RouteStore, host: &str, req_path: &str) -> (r: Option<String>)
    ensures
        match r {
            Some(u) => proxy_target(store@, host@, req_path@) == Some(u@),
            None => proxy_target(store@, host@, req_path@) is None,
        },
{
    let routes = routes_of(store);
    let n = routes.len();
    let ghost s = store@;
    let mut i: usize = 0;
    proof {
        assert(s.skip(0) =~= s);
    }
    while i < n
        invariant
            n == routes@.len(),
            s == routes_view(routes@),
            s == store@,
            i <= n,
            proxy_target(s, host@, req_path@) == proxy_target(s.skip(i as int), host@, req_path@),
        decreases n - i,
    {
        let entry = &routes[i];
        proof {
            assert(s.skip(i as int)[0] == s[i as int]);
            assert(s[i as int] == routes@[i as int]@);
            assert(s.skip(i as int).drop_first() =~= s.skip(i + 1));
        }
        let d = trim_end_matches(entry.domain.as_str(), '.');
        if str_eq(d.as_str(), host) && (is_root(entry.path.as_str()) || starts_with(
            req_path,
            entry.path.as_str(),
        )) {
            assert(proxy_matches(s.skip(i as int)[0], host@, req_path@));
            return Some(upstream_for(entry, req_path));
        }
        i = i + 1;
    }
    None
}

/// The `X-Forwarded-Port` value for a raw `Host` value (see `port_field`).
pub fn forwarded_port(raw_host: &str) -> (r: String)
    ensures
        r@ == port_field(raw_host@),
{
    let n = raw_host.unicode_len();
    match find_char(raw_host, ':') {
        None => {
            proof {
                reveal_strlit("80");
            }
            owned("80")
        },
        Some(i) => {
            proof {
                crate::text::lemma_first_index_of(raw_host@, ':');
            }
            let t = chars_from(raw_host, i + 1);
            match find_char(t.as_str(), ':') {
                None => t,
                Some(j) => {
                    proof {
                        crate::text::lemma_first_index_of(t@, ':');
                    }
                    chars_to(t.as_str(), j)
                },
            }
        },
    }
}

/// A route whose path is empty or `/` sends every request for its domain to
/// its upstream (without trailing slashes) followed by the full request path.
pub proof fn law_root_route_forwards_whole_path(r: RouteView, req_path: Seq<char>)
    requires
        is_root_path(r.path),
    ensures
        path_matches(r.path, req_path),
        upstream_url(r, req_path) == trim_end(r.upstream, '/') + req_path,
{
}

/// A route whose path is empty or `/` serves every request path on its
/// domain, unless an earlier route serves that request.
pub proof fn law_root_route_serves_every_path(routes: Seq<RouteView>, i: int, req_path: Seq<char>)
    requires
        0 <= i < routes.len(),
        is_root_path(routes[i].path),
        forall|j: int|
            0 <= j < i ==> !proxy_matches(
                #[trigger] routes[j],
                trim_end(routes[i].domain, '.'),
                req_path,
            ),
    ensures
        proxy_target(routes, trim_end(routes[i].domain, '.'), req_path) == Some(
            upstream_url(routes[i], req_path),
        ),
    decreases i,
{
    if i > 0 {
        let t = routes.drop_first();
        assert forall|j: int| 0 <= j < i - 1 implies !proxy_matches(
            #[trigger] t[j],
            trim_end(t[i - 1].domain, '.'),
            req_path,
        ) by {
            assert(t[j] == routes[j + 1]);
        }
        law_root_route_serves_every_path(t, i - 1, req_path);
        assert(t[i - 1] == routes[i]);
    }
}

/// A route with path `p` (neither empty nor `/`) takes `p` off the front of
/// the request path; a request path equal to `p` is sent as `/`.
pub proof fn law_prefix_route_strips_prefix(r: RouteView, rest: Seq<char>)
    requires
        !is_root_path(r.path),
    ensures
        path_matches(r.path, r.path + rest),
        upstream_url(r, r.path + rest) == trim_end(r.upstream, '/') + (if rest.len() == 0 {
            seq!['/']
        } else {
            rest
        }),
{
    assert(r.path.is_prefix_of(r.path + rest)) by {
        assert forall|i: int| 0 <= i < r.path.len() implies (r.path + rest)[i] == r.path[i] by {}
    }
    assert((r.path + rest).skip(r.path.len() as int) =~= rest);
}

/// A request is served by the first route whose domain, without trailing
/// dots, equals the host exactly and whose path is empty, `/`, or a prefix of
/// the request path. The URL is that route's upstream without trailing
/// slashes, followed by the request path (for an empty or `/` route path) or
/// by what follows the route's path in it (`/` when nothing does). When no
/// route has both, the request is not served.
pub proof fn law_proxy_chooses_exact_host(routes: Seq<RouteView>, host: Seq<char>, req_path: Seq<char>)
    ensures
        match proxy_target(routes, host, req_path) {
            Some(u) => exists|i: int|
                0 <= i < routes.len() && trim_end(#[trigger] routes[i].domain, '.') == host && (
                routes[i].path.len() == 0 || routes[i].path == seq!['/']
                    || routes[i].path.is_prefix_of(req_path)) && (forall|j: int|
                    0 <= j < i ==> !(trim_end(#[trigger] routes[j].domain, '.') == host && (
                    routes[j].path.len() == 0 || routes[j].path == seq!['/']
                        || routes[j].path.is_prefix_of(req_path)))) && u == trim_end(
                    routes[i].upstream,
                    '/',
                ) + (if routes[i].path.len() == 0 || routes[i].path == seq!['/'] {
                    req_path
                } else if req_path.len() == routes[i].path.len() {
                    seq!['/']
                } else {
                    req_path.subrange(routes[i].path.len() as int, req_path.len() as int)
                }),
            None => forall|i: int|
                0 <= i < routes.len() ==> !(trim_end(#[trigger] routes[i].domain, '.') == host && (
                routes[i].path.len() == 0 || routes[i].path == seq!['/']
                    || routes[i].path.is_prefix_of(req_path))),
        },
    decreases routes.len(),
{
    if routes.len() > 0 {
        let t = routes.drop_first();
        law_proxy_chooses_exact_host(t, host, req_path);
        let r = routes[0];
        if proxy_matches(r, host, req_path) {
            assert(trim_end(routes[0].domain, '.') == host);
            if !(r.path.len() == 0 || r.path == seq!['/']) && req_path.len() != r.path.len() {
                assert(req_path.skip(r.path.len() as int) =~= req_path.subrange(
                    r.path.len() as int,
                    req_path.len() as int,
                ));
            }
        } else {
            match proxy_target(t, host, req_path) {
                Some(u) => {
                    let k = choose|k: int|
                        0 <= k < t.len() && trim_end(#[trigger] t[k].domain, '.') == host && (
                        t[k].path.len() == 0 || t[k].path == seq!['/'] || t[k].path.is_prefix_of(
                            req_path,
                        )) && (forall|j: int|
                            0 <= j < k ==> !(trim_end(#[trigger] t[j].domain, '.') == host && (
                            t[j].path.len() == 0 || t[j].path == seq!['/']
                                || t[j].path.is_prefix_of(req_path)))) && u == trim_end(
                            t[k].upstream,
                            '/',
                        ) + (if t[k].path.len() == 0 || t[k].path == seq!['/'] {
                            req_path
                        } else if req_path.len() == t[k].path.len() {
                            seq!['/']
                        } else {
                            req_path.subrange(t[k].path.len() as int, req_path.len() as int)
                        });
                    assert(routes[k + 1] == t[k]);
                    assert forall|j: int| 0 <= j < k + 1 implies !(trim_end(
                        #[trigger] routes[j].domain,
                        '.',
                    ) == host && (routes[j].path.len() == 0 || routes[j].path == seq!['/']
                        || routes[j].path.is_prefix_of(req_path))) by {
                        if j > 0 {
                            assert(routes[j] == t[j - 1]);
                        }
                    }
                },
                None => {
                    assert forall|i: int| 0 <= i < routes.len() implies !(trim_end(
                        #[trigger] routes[i].domain,
                        '.',
                    ) == host && (routes[i].path.len() == 0 || routes[i].path == seq!['/']
                        || routes[i].path.is_prefix_of(req_path))) by {
                        if i > 0 {
                            assert(routes[i] == t[i - 1]);
                        }
                    }
                },
            }
        }
    }
}

} // verus!

//! A route: a domain answered locally by DNS and proxied to an upstream endpoint.
use vstd::prelude::*;
use crate::net::IpAddress;

verus! {

/// One route: DNS answers `domain` with `ip`; the proxy sends requests for
/// `domain` whose path starts with `path` to `upstream`.
#[derive(Debug)]
pub struct RouteEntry {
    pub domain: String,
    pub ip: IpAddress,
    pub path: String,
    pub upstream: String,
}

/// The mathematical value of a route.
pub struct RouteView {
    pub domain: Seq<char>,
    pub ip: IpAddress,
    pub path: Seq<char>,
    pub upstream: Seq<char>,
}

impl View for RouteEntry {
    type V = RouteView;

    open spec fn view(&self) -> RouteView {
        RouteView { domain: self.domain@, ip: self.ip, path: self.path@, upstream: self.upstream@ }
    }
}

/// The views of a sequence of routes.
pub open spec fn routes_view(v: Seq<RouteEntry>) -> Seq<RouteView> {
    v.map_values(|r: RouteEntry| r@)
}

impl Clone for RouteEntry {
    fn clone(&self) -> (r: Self)
        ensures
            r@ == self@,
    {
        RouteEntry {
            domain: self.domain.clone(),
            ip: self.ip,
            path: self.path.clone(),
            upstream: self.upstream.clone(),
        }
    }
}

/// A copy of a list of routes.
pub fn clone_routes(v: &Vec<RouteEntry>) -> (r: Vec<RouteEntry>)
    ensures
        routes_view(r@) == routes_view(v@),
{
    let mut r: Vec<RouteEntry> = Vec::new();
    let mut i: usize = 0;
    while i < v.len()
        invariant
            i <= v.len(),
            r@.len() == i,
            forall|j: int| 0 <= j < i ==> #[trigger] r@[j]@ == v@[j]@,
        decreases v.len() - i,
    {
        let e = v[i].clone();
        r.push(e);
        i = i + 1;
    }
    assert(routes_view(r@) =~= routes_view(v@));
    r
}

} // verus!

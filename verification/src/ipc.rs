//! The daemon's side of the control protocol: length-prefixed frames and request handling.
use vstd::prelude::*;
use crate::dns::DnsServer;
use crate::net::{IpAddress, SocketAddress, loopback, default_ip};
use crate::protocol::{Request, RequestView, Response, ResponseView};
use crate::proxy::ProxyServer;
use crate::route::{RouteEntry, RouteView};
use crate::state::{set_resolver, is_dns_running, is_proxy_running};
use crate::store::{RouteStore, add_route, remove_route, list_routes, has_key, without_key};
use crate::text::owned;

verus! {

/// The four big-endian bytes of `n`.
pub open spec fn be_bytes(n: u32) -> Seq<u8> {
    seq![(n >> 24u32) as u8, ((n >> 16u32) & 0xffu32) as u8, ((n >> 8u32) & 0xffu32) as u8, (n & 0xffu32) as u8]
}

/// The number that four big-endian bytes stand for.
pub open spec fn be_value(h: Seq<u8>) -> int {
    h[0] * 16777216 + h[1] * 65536 + h[2] * 256 + h[3]
}

/// The header of a frame whose payload is `len` bytes long: the length,
/// truncated to 32 bits, in big-endian order.
pub fn length_header(len: usize) -> (h: [u8; 4])
    ensures
        h@ == be_bytes((len as int % 4294967296) as u32),
{
    let v: u32 = (len as u64 % 4294967296u64) as u32;
    let h = [(v >> 24u32) as u8, ((v >> 16u32) & 0xffu32) as u8, ((v >> 8u32) & 0xffu32) as u8, (v & 0xffu32) as u8];
    assert(h@ =~= be_bytes(v));
    h
}

/// The payload length that a frame header announces.
pub fn frame_length(h: [u8; 4]) -> (n: usize)
    ensures
        n == be_value(h@),
{
    let v: u32 = (h[0] as u32) * 16777216u32 + (h[1] as u32) * 65536u32 + (h[2] as u32) * 256u32 + (h[3] as u32);
    v as usize
}

/// Reading a header gives back the length it was written for.
pub proof fn law_header_roundtrip(n: u32)
    ensures
        be_value(be_bytes(n)) == n,
{
    let a = (n >> 24u32) as u8;
    let b = ((n >> 16u32) & 0xffu32) as u8;
    let c = ((n >> 8u32) & 0xffu32) as u8;
    let d = (n & 0xffu32) as u8;
    assert(a as u32 * 16777216u32 + b as u32 * 65536u32 + c as u32 * 256u32 + d as u32 == n)
        by (bit_vector)
        requires
            a == (n >> 24u32) as u8,
            b == ((n >> 16u32) & 0xffu32) as u8,
            c == ((n >> 8u32) & 0xffu32) as u8,
            d == (n & 0xffu32) as u8,
    ;
}

/// The address a new route gets: the parsed one, or 127.0.0.1 when the text did not parse.
pub open spec fn route_address(parsed_ip: Option<IpAddress>) -> IpAddress {
    match parsed_ip {
        Some(a) => a,
        None => loopback(),
    }
}

/// What a request does: the route table, resolver and response after it.
/// `parsed_ip` and `parsed_resolver` are what parsing the request's address text gave.
pub open spec fn dispatch_spec(
    req: RequestView,
    routes: Seq<RouteView>,
    resolver: Option<SocketAddress>,
    dns_running: bool,
    proxy_running: bool,
    parsed_ip: Option<IpAddress>,
    parsed_resolver: Option<SocketAddress>,
) -> (Seq<RouteView>, Option<SocketAddress>, ResponseView) {
    match req {
        RequestView::GetRoutes => (routes, resolver, ResponseView::Routes { routes }),
        RequestView::AddRoute { domain, ip: _, path, upstream } => {
            if has_key(routes, domain, path) {
                (routes, resolver, ResponseView::Error { msg: "route already exists"@ })
            } else {
                let e = RouteView { domain, ip: route_address(parsed_ip), path, upstream };
                (routes.push(e), resolver, ResponseView::Success)
            }
        },
        RequestView::RemoveRoute { domain, path } => {
            if has_key(routes, domain, path) {
                (without_key(routes, domain, path), resolver, ResponseView::Success)
            } else {
                (routes, resolver, ResponseView::Error { msg: "route not found"@ })
            }
        },
        RequestView::SetResolver { addr: _ } => (routes, parsed_resolver, ResponseView::Success),
        RequestView::GetStatus => (
            routes,
            resolver,
            ResponseView::Status { connected: true, dns_running, proxy_running },
        ),
    }
}

/// Handles one request against the route table and the resolver setting.
/// `parsed_ip` is the request's `ip` text parsed as an IP address (for
/// `AddRoute`); `parsed_resolver` its `addr` text parsed as a socket address
/// (for `SetResolver`).
pub fn dispatch(
    req: Request,
    store: &mut RouteStore,
    resolver: &mut Option<SocketAddress>,
    dns: &DnsServer,
    proxy: &ProxyServer,
    parsed_ip: Option<IpAddress>,
    parsed_resolver: Option<SocketAddress>,
) -> (resp: Response)
    ensures
        (final(store)@, *final(resolver), resp@) == dispatch_spec(
            req@,
            old(store)@,
            *old(resolver),
            dns@,
            proxy@,
            parsed_ip,
            parsed_resolver,
        ),
{
    match req {
        Request::GetRoutes => {
            let routes = list_routes(store);
            Response::Routes { routes }
        },
        Request::AddRoute { domain, ip: _, path, upstream } => {
            let ip = match parsed_ip {
                Some(a) => a,
                None => default_ip(),
            };
            let ok = add_route(store, RouteEntry { domain, ip, path, upstream });
            if ok {
                Response::Success
            } else {
                Response::Error { msg: owned("route already exists") }
            }
        },
        Request::RemoveRoute { domain, path } => {
            let ghost before = store@;
            if remove_route(store, domain.as_str(), path.as_str()) {
                Response::Success
            } else {
                proof {
                    crate::store::lemma_without_absent_key(before, domain@, path@);
                }
                Response::Error { msg: owned("route not found") }
            }
        },
        Request::SetResolver { addr: _ } => {
            set_resolver(resolver, parsed_resolver);
            Response::Success
        },
        Request::GetStatus => Response::Status {
            connected: true,
            dns_running: is_dns_running(dns),
            proxy_running: is_proxy_running(proxy),
        },
    }
}

/// Adding a route through the protocol succeeds when its domain and path are
/// new; the route then shows last in the route list, and removing it by its
/// domain and path succeeds and gives back the table as it was.
pub proof fn law_add_list_remove_requests(
    routes: Seq<RouteView>,
    resolver: Option<SocketAddress>,
    dns_running: bool,
    proxy_running: bool,
    domain: Seq<char>,
    ip: Seq<char>,
    path: Seq<char>,
    upstream: Seq<char>,
    parsed_ip: Option<IpAddress>,
)
    requires
        !has_key(routes, domain, path),
    ensures
        ({
            let e = RouteView { domain, ip: route_address(parsed_ip), path, upstream };
            let added = dispatch_spec(
                RequestView::AddRoute { domain, ip, path, upstream },
                routes,
                resolver,
                dns_running,
                proxy_running,
                parsed_ip,
                None,
            );
            let listed = dispatch_spec(
                RequestView::GetRoutes,
                added.0,
                added.1,
                dns_running,
                proxy_running,
                None,
                None,
            );
            let removed = dispatch_spec(
                RequestView::RemoveRoute { domain, path },
                added.0,
                added.1,
                dns_running,
                proxy_running,
                None,
                None,
            );
            &&& added.2 == ResponseView::Success
            &&& listed.2 == ResponseView::Routes { routes: routes.push(e) }
            &&& removed.2 == ResponseView::Success
            &&& removed.0 == routes
            &&& removed.1 == resolver
        }),
{
    let e = RouteView { domain, ip: route_address(parsed_ip), path, upstream };
    crate::store::law_add_then_remove(routes, e);
}

/// A request to add a route whose domain and path are taken is refused with
/// `route already exists` and changes nothing.
pub proof fn law_duplicate_add_refused(
    routes: Seq<RouteView>,
    resolver: Option<SocketAddress>,
    dns_running: bool,
    proxy_running: bool,
    domain: Seq<char>,
    ip: Seq<char>,
    path: Seq<char>,
    upstream: Seq<char>,
    parsed_ip: Option<IpAddress>,
)
    requires
        has_key(routes, domain, path),
    ensures
        dispatch_spec(
            RequestView::AddRoute { domain, ip, path, upstream },
            routes,
            resolver,
            dns_running,
            proxy_running,
            parsed_ip,
            None,
        ) == (routes, resolver, ResponseView::Error { msg: "route already exists"@ }),
{
}

/// The outcome of one frame: the response to send, and whether the route
/// table is to be saved afterwards.
#[derive(Debug)]
pub struct Served {
    pub response: Response,
    pub persist: bool,
}

/// Handles one received frame. `req` is the frame's payload decoded as a
/// request (`None` when it did not decode): such a frame is answered with an
/// error and changes nothing. After a successful request the table is saved.
pub fn serve_request(
    req: Option<Request>,
    store: &mut RouteStore,
    resolver: &mut Option<SocketAddress>,
    dns: &DnsServer,
    proxy: &ProxyServer,
    parsed_ip: Option<IpAddress>,
    parsed_resolver: Option<SocketAddress>,
) -> (s: Served)
    ensures
        match req {
            None => {
                &&& final(store)@ == old(store)@
                &&& *final(resolver) == *old(resolver)
                &&& s.response@ == ResponseView::Error { msg: "invalid request"@ }
                &&& !s.persist
            },
            Some(r) => {
                &&& (final(store)@, *final(resolver), s.response@) == dispatch_spec(
                    r@,
                    old(store)@,
                    *old(resolver),
                    dns@,
                    proxy@,
                    parsed_ip,
                    parsed_resolver,
                )
                &&& s.persist == (s.response@ == ResponseView::Success)
            },
        },
{
    match req {
        None => Served { response: Response::Error { msg: owned("invalid request") }, persist: false },
        Some(r) => {
            let response = dispatch(r, store, resolver, dns, proxy, parsed_ip, parsed_resolver);
            let persist = match response {
                Response::Success => true,
                _ => false,
            };
            Served { response, persist }
        },
    }
}

/// Adding a route whose domain and path are new stores it with exactly the
/// address its text parsed to, or 127.0.0.1 when the text did not parse,
/// after the existing routes, and answers success; the resolver is untouched.
pub proof fn law_add_stores_parsed_address(
    routes: Seq<RouteView>,
    resolver: Option<SocketAddress>,
    dns_running: bool,
    proxy_running: bool,
    domain: Seq<char>,
    ip: Seq<char>,
    path: Seq<char>,
    upstream: Seq<char>,
    parsed_ip: Option<IpAddress>,
)
    requires
        forall|i: int| 0 <= i < routes.len() ==> !(#[trigger] routes[i].domain == domain && routes[i].path == path),
    ensures
        ({
            let out = dispatch_spec(
                RequestView::AddRoute { domain, ip, path, upstream },
                routes,
                resolver,
                dns_running,
                proxy_running,
                parsed_ip,
                None,
            );
            let stored = match parsed_ip {
                Some(a) => a,
                None => IpAddress::V4([127u8, 0u8, 0u8, 1u8]),
            };
            &&& out.0 == routes.push(RouteView { domain, ip: stored, path, upstream })
            &&& out.1 == resolver
            &&& out.2 == ResponseView::Success
        }),
{
    assert(!has_key(routes, domain, path));
}

} // verus!

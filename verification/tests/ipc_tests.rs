use gisonet::dns::DnsServer;
use gisonet::ipc::{dispatch, frame_length, length_header, serve_request};
use gisonet::net::{IpAddress, SocketAddress};
use gisonet::protocol::{Request, Response};
use gisonet::proxy::ProxyServer;
use gisonet::store::{list_routes, new_store, RouteStore};

fn add(domain: &str, ip: &str, path: &str, upstream: &str) -> Request {
    Request::AddRoute { domain: domain.into(), ip: ip.into(), path: path.into(), upstream: upstream.into() }
}

struct Daemon {
    store: RouteStore,
    resolver: Option<SocketAddress>,
    dns: DnsServer,
    proxy: ProxyServer,
}

fn daemon() -> Daemon {
    Daemon { store: new_store(), resolver: None, dns: DnsServer::new(), proxy: ProxyServer::new() }
}

fn run(d: &mut Daemon, req: Request, ip: Option<IpAddress>, res: Option<SocketAddress>) -> Response {
    dispatch(req, &mut d.store, &mut d.resolver, &d.dns, &d.proxy, ip, res)
}

#[test]
fn header_is_big_endian_length() {
    assert_eq!(length_header(0), [0, 0, 0, 0]);
    assert_eq!(length_header(5), [0, 0, 0, 5]);
    assert_eq!(length_header(0x0102_0304), [1, 2, 3, 4]);
    assert_eq!(length_header(300), 300u32.to_be_bytes());
}

#[test]
fn header_roundtrip() {
    for n in [0usize, 1, 255, 256, 65535, 65536, 16_777_216, 4_294_967_295] {
        assert_eq!(frame_length(length_header(n)), n);
    }
    assert_eq!(frame_length([0xff, 0, 0, 1]), 0xff00_0001);
}

#[test]
fn header_truncates_to_32_bits() {
    assert_eq!(length_header((u32::MAX as usize).wrapping_add(8)), [0, 0, 0, 7]);
}

#[test]
fn add_then_get_routes() {
    let mut d = daemon();
    let r = run(&mut d, add("app.test", "10.0.0.5", "/", "http://up"), Some(IpAddress::V4([10, 0, 0, 5])), None);
    assert!(matches!(r, Response::Success));
    match run(&mut d, Request::GetRoutes, None, None) {
        Response::Routes { routes } => {
            assert_eq!(routes.len(), 1);
            assert_eq!(routes[0].domain, "app.test");
            assert!(matches!(routes[0].ip, IpAddress::V4([10, 0, 0, 5])));
            assert_eq!(routes[0].upstream, "http://up");
        }
        other => panic!("unexpected {other:?}"),
    }
}

#[test]
fn add_with_unparsable_ip_uses_loopback() {
    let mut d = daemon();
    run(&mut d, add("app.test", "not-an-ip", "/", "http://up"), None, None);
    assert!(matches!(list_routes(&d.store)[0].ip, IpAddress::V4([127, 0, 0, 1])));
}

#[test]
fn duplicate_add_is_an_error() {
    let mut d = daemon();
    run(&mut d, add("app.test", "", "/", "http://a"), None, None);
    match run(&mut d, add("app.test", "", "/", "http://b"), None, None) {
        Response::Error { msg } => assert_eq!(msg, "route already exists"),
        other => panic!("unexpected {other:?}"),
    }
    assert_eq!(list_routes(&d.store).len(), 1);
}

#[test]
fn remove_missing_route_is_an_error() {
    let mut d = daemon();
    match run(&mut d, Request::RemoveRoute { domain: "x".into(), path: "/".into() }, None, None) {
        Response::Error { msg } => assert_eq!(msg, "route not found"),
        other => panic!("unexpected {other:?}"),
    }
    run(&mut d, add("x", "", "/", "http://a"), None, None);
    assert!(matches!(
        run(&mut d, Request::RemoveRoute { domain: "x".into(), path: "/".into() }, None, None),
        Response::Success
    ));
    assert!(list_routes(&d.store).is_empty());
}

#[test]
fn set_resolver_stores_parsed_address() {
    let mut d = daemon();
    let addr = SocketAddress::V4 { ip: [9, 9, 9, 9], port: 53 };
    assert!(matches!(run(&mut d, Request::SetResolver { addr: "9.9.9.9:53".into() }, None, Some(addr)), Response::Success));
    assert!(matches!(d.resolver, Some(SocketAddress::V4 { ip: [9, 9, 9, 9], port: 53 })));
    assert!(matches!(run(&mut d, Request::SetResolver { addr: "bogus".into() }, None, None), Response::Success));
    assert!(d.resolver.is_none());
}

#[test]
fn status_reports_servers() {
    let mut d = daemon();
    d.dns.set_running(true);
    match run(&mut d, Request::GetStatus, None, None) {
        Response::Status { connected, dns_running, proxy_running } => {
            assert!(connected);
            assert!(dns_running);
            assert!(!proxy_running);
        }
        other => panic!("unexpected {other:?}"),
    }
}

#[test]
fn invalid_frame_gets_error_and_is_not_saved() {
    let mut d = daemon();
    let s = serve_request(None, &mut d.store, &mut d.resolver, &d.dns, &d.proxy, None, None);
    assert!(!s.persist);
    match s.response {
        Response::Error { msg } => assert_eq!(msg, "invalid request"),
        other => panic!("unexpected {other:?}"),
    }
}

#[test]
fn only_successful_requests_are_saved() {
    let mut d = daemon();
    let s = serve_request(Some(add("a", "", "/", "u")), &mut d.store, &mut d.resolver, &d.dns, &d.proxy, None, None);
    assert!(s.persist);
    let s = serve_request(Some(add("a", "", "/", "u")), &mut d.store, &mut d.resolver, &d.dns, &d.proxy, None, None);
    assert!(!s.persist);
    let s = serve_request(Some(Request::GetRoutes), &mut d.store, &mut d.resolver, &d.dns, &d.proxy, None, None);
    assert!(!s.persist);
    let s = serve_request(Some(Request::GetStatus), &mut d.store, &mut d.resolver, &d.dns, &d.proxy, None, None);
    assert!(!s.persist);
}

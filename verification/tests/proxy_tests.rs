use gisonet::net::IpAddress;
use gisonet::proxy::{forwarded_port, is_root, normalize_host, resolve_upstream, upstream_for, ProxyServer};
use gisonet::route::RouteEntry;
use gisonet::store::{add_route, new_store, RouteStore};

fn route(domain: &str, path: &str, upstream: &str) -> RouteEntry {
    RouteEntry {
        domain: domain.to_string(),
        ip: IpAddress::V4([127, 0, 0, 1]),
        path: path.to_string(),
        upstream: upstream.to_string(),
    }
}

fn store(routes: Vec<RouteEntry>) -> RouteStore {
    let mut s = new_store();
    for r in routes {
        add_route(&mut s, r);
    }
    s
}

#[test]
fn root_route_forwards_whole_path() {
    let s = store(vec![route("app.test", "/", "http://127.0.0.1:3000/")]);
    assert_eq!(resolve_upstream(&s, "app.test", "/a/b?x=1").as_deref(), Some("http://127.0.0.1:3000/a/b?x=1"));
}

#[test]
fn empty_path_route_forwards_whole_path() {
    let s = store(vec![route("app.test", "", "http://up")]);
    assert_eq!(resolve_upstream(&s, "app.test", "/").as_deref(), Some("http://up/"));
}

#[test]
fn prefix_route_strips_its_prefix() {
    let s = store(vec![route("app.test", "/api", "http://127.0.0.1:4000")]);
    assert_eq!(resolve_upstream(&s, "app.test", "/api/users").as_deref(), Some("http://127.0.0.1:4000/users"));
    assert_eq!(resolve_upstream(&s, "app.test", "/api").as_deref(), Some("http://127.0.0.1:4000/"));
    assert_eq!(resolve_upstream(&s, "app.test", "/apiv2").as_deref(), Some("http://127.0.0.1:4000v2"));
    assert_eq!(resolve_upstream(&s, "app.test", "/other"), None);
}

#[test]
fn first_matching_route_is_used() {
    let s = store(vec![
        route("app.test", "/api", "http://api"),
        route("app.test", "/", "http://web"),
    ]);
    assert_eq!(resolve_upstream(&s, "app.test", "/api/x").as_deref(), Some("http://api/x"));
    assert_eq!(resolve_upstream(&s, "app.test", "/index.html").as_deref(), Some("http://web/index.html"));
}

#[test]
fn unknown_host_has_no_route() {
    let s = store(vec![route("app.test", "/", "http://web")]);
    assert_eq!(resolve_upstream(&s, "other.test", "/"), None);
    assert_eq!(resolve_upstream(&s, "app.test:8443", "/"), None);
}

#[test]
fn host_with_trailing_dot_matches_after_normalizing() {
    let s = store(vec![route("app.test.", "/", "http://web//")]);
    let host = normalize_host("app.test.");
    assert_eq!(host, "app.test");
    assert_eq!(resolve_upstream(&s, &host, "/p").as_deref(), Some("http://web/p"));
}

#[test]
fn upstream_for_single_route() {
    let r = route("x", "/static", "http://files/");
    assert_eq!(upstream_for(&r, "/static/app.js"), "http://files/app.js");
    assert_eq!(upstream_for(&r, "/elsewhere"), "http://files/elsewhere");
}

#[test]
fn root_paths() {
    assert!(is_root(""));
    assert!(is_root("/"));
    assert!(!is_root("//"));
    assert!(!is_root("/a"));
}

#[test]
fn forwarded_port_values() {
    assert_eq!(forwarded_port("app.test"), "80");
    assert_eq!(forwarded_port("app.test:8443"), "8443");
    assert_eq!(forwarded_port("a:1:2"), "1");
    assert_eq!(forwarded_port("a:"), "");
}

#[test]
fn proxy_server_running_flag() {
    let mut p = ProxyServer::new();
    assert!(!gisonet::state::is_proxy_running(&p));
    p.set_running(true);
    assert!(p.is_running());
    assert!(gisonet::state::is_proxy_running(&p));
}

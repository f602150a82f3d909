use gisonet::net::IpAddress;
use gisonet::route::RouteEntry;
use gisonet::store::{add_route, list_routes, new_store, remove_route, replace_routes};

fn route(domain: &str, path: &str, upstream: &str) -> RouteEntry {
    RouteEntry {
        domain: domain.to_string(),
        ip: IpAddress::V4([127, 0, 0, 1]),
        path: path.to_string(),
        upstream: upstream.to_string(),
    }
}

fn keys(store: &gisonet::store::RouteStore) -> Vec<(String, String)> {
    list_routes(store).into_iter().map(|r| (r.domain, r.path)).collect()
}

#[test]
fn new_store_is_empty() {
    let s = new_store();
    assert!(list_routes(&s).is_empty());
}

#[test]
fn add_route_appends_in_order() {
    let mut s = new_store();
    assert!(add_route(&mut s, route("a.test", "/", "http://127.0.0.1:3000")));
    assert!(add_route(&mut s, route("b.test", "/api", "http://127.0.0.1:4000")));
    assert_eq!(
        keys(&s),
        vec![("a.test".to_string(), "/".to_string()), ("b.test".to_string(), "/api".to_string())]
    );
}

#[test]
fn add_route_rejects_duplicate_domain_and_path() {
    let mut s = new_store();
    assert!(add_route(&mut s, route("a.test", "/", "http://one")));
    assert!(!add_route(&mut s, route("a.test", "/", "http://two")));
    let routes = list_routes(&s);
    assert_eq!(routes.len(), 1);
    assert_eq!(routes[0].upstream, "http://one");
}

#[test]
fn same_domain_other_path_is_a_new_route() {
    let mut s = new_store();
    assert!(add_route(&mut s, route("a.test", "/", "http://one")));
    assert!(add_route(&mut s, route("a.test", "/api", "http://two")));
    assert_eq!(list_routes(&s).len(), 2);
}

#[test]
fn remove_route_reports_whether_found() {
    let mut s = new_store();
    add_route(&mut s, route("a.test", "/", "http://one"));
    add_route(&mut s, route("b.test", "/", "http://two"));
    assert!(remove_route(&mut s, "a.test", "/"));
    assert_eq!(keys(&s), vec![("b.test".to_string(), "/".to_string())]);
    assert!(!remove_route(&mut s, "a.test", "/"));
    assert!(!remove_route(&mut s, "b.test", "/api"));
    assert_eq!(list_routes(&s).len(), 1);
}

#[test]
fn add_then_remove_restores_table() {
    let mut s = new_store();
    add_route(&mut s, route("a.test", "/", "http://one"));
    add_route(&mut s, route("b.test", "/x", "http://two"));
    let before = keys(&s);
    assert!(add_route(&mut s, route("c.test", "/", "http://three")));
    assert!(remove_route(&mut s, "c.test", "/"));
    assert_eq!(keys(&s), before);
}

#[test]
fn remove_takes_out_every_copy_of_a_loaded_duplicate() {
    let mut s = new_store();
    replace_routes(
        &mut s,
        vec![route("a.test", "/", "http://one"), route("b.test", "/", "http://x"), route("a.test", "/", "http://two")],
    );
    assert!(remove_route(&mut s, "a.test", "/"));
    assert_eq!(keys(&s), vec![("b.test".to_string(), "/".to_string())]);
    assert!(!remove_route(&mut s, "a.test", "/"));
}

#[test]
fn keys_stay_unique_after_adds_and_removes() {
    let mut s = new_store();
    for (d, p) in [("a", "/"), ("a", "/"), ("b", "/"), ("a", "/x"), ("b", "/")] {
        add_route(&mut s, route(d, p, "http://u"));
    }
    remove_route(&mut s, "a", "/");
    add_route(&mut s, route("a", "/", "http://v"));
    let k = keys(&s);
    for i in 0..k.len() {
        for j in (i + 1)..k.len() {
            assert_ne!(k[i], k[j]);
        }
    }
    assert_eq!(k.len(), 3);
}

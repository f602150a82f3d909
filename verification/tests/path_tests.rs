use gisonet::cert::{ca_cert_path, ca_key_path, certs_dir, leaf_cert_path, leaf_key_path, CertCache};
use gisonet::paths::join;
use gisonet::persist::routes_path;

#[test]
fn join_adds_separator_when_needed() {
    assert_eq!(join("/var/lib/gisonet", "routes.json"), "/var/lib/gisonet/routes.json");
    assert_eq!(join("/var/lib/gisonet/", "routes.json"), "/var/lib/gisonet/routes.json");
    assert_eq!(join("", "routes.json"), "routes.json");
    assert_eq!(join("data", "/abs/file"), "/abs/file");
}

#[test]
fn routes_file_location() {
    assert_eq!(routes_path("/var/lib/gisonet"), "/var/lib/gisonet/routes.json");
}

#[test]
fn certificate_locations() {
    assert_eq!(ca_cert_path("/d"), "/d/certs/ca.crt");
    assert_eq!(ca_key_path("/d"), "/d/certs/ca.key");
    assert_eq!(certs_dir("/d"), "/d/certs");
    assert_eq!(leaf_cert_path("/d", "app.test"), "/d/certs/app.test/cert.pem");
    assert_eq!(leaf_key_path("/d/", "app.test"), "/d/certs/app.test/key.pem");
}

#[test]
fn cache_read_after_write() {
    let mut c: CertCache<u32> = CertCache::new();
    assert_eq!(c.get("a.test"), None);
    c.insert("a.test".to_string(), 1);
    c.insert("b.test".to_string(), 2);
    assert_eq!(c.get("a.test"), Some(&1));
    assert_eq!(c.get("b.test"), Some(&2));
    c.insert("a.test".to_string(), 3);
    assert_eq!(c.get("a.test"), Some(&3));
    assert_eq!(c.get("b.test"), Some(&2));
    assert_eq!(c.get("c.test"), None);
}

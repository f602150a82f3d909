use gisonet::config::{Config, ConfigSources};
use gisonet::net::SocketAddress;

fn nothing() -> ConfigSources {
    ConfigSources {
        dns_port: None,
        http_port: None,
        https_port: None,
        socket: None,
        data_dir: None,
        upstream_dns: None,
        log_level: None,
    }
}

#[test]
fn defaults_when_nothing_given() {
    let c = Config::load(nothing(), nothing(), true);
    assert_eq!(c.data_dir, "/var/lib/gisonet");
    assert_eq!(c.socket_path, "/var/run/gisonet.sock");
    assert_eq!(c.log_level, "info");
    assert_eq!(c.pid_path, "/var/lib/gisonet/gisonet-daemon.pid");
    assert!(matches!(c.upstream_dns, SocketAddress::V4 { ip: [1, 1, 1, 1], port: 53 }));
    assert!(matches!(c.dns_addr, SocketAddress::V4 { ip: [127, 0, 0, 10], port: 53 }));
    assert!(matches!(c.http_addr, SocketAddress::V4 { ip: [0, 0, 0, 0], port: 80 }));
    assert!(matches!(c.https_addr, SocketAddress::V4 { ip: [0, 0, 0, 0], port: 443 }));
}

#[test]
fn dns_listens_on_any_address_off_linux() {
    let c = Config::load(nothing(), nothing(), false);
    assert!(matches!(c.dns_addr, SocketAddress::V4 { ip: [0, 0, 0, 0], port: 53 }));
}

#[test]
fn command_line_wins_over_file() {
    let mut cli = nothing();
    cli.dns_port = Some(5353);
    cli.data_dir = Some("/tmp/gn/".into());
    let mut file = nothing();
    file.dns_port = Some(1053);
    file.http_port = Some(8080);
    file.data_dir = Some("/srv/gn".into());
    file.log_level = Some("debug".into());
    let c = Config::load(cli, file, true);
    assert!(matches!(c.dns_addr, SocketAddress::V4 { port: 5353, .. }));
    assert!(matches!(c.http_addr, SocketAddress::V4 { port: 8080, .. }));
    assert!(matches!(c.https_addr, SocketAddress::V4 { port: 443, .. }));
    assert_eq!(c.data_dir, "/tmp/gn/");
    assert_eq!(c.pid_path, "/tmp/gn/gisonet-daemon.pid");
    assert_eq!(c.log_level, "debug");
}

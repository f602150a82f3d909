//! The daemon's settings: command line over config file over defaults.
use vstd::prelude::*;
use crate::net::SocketAddress;
use crate::paths::{join, join_path};
use crate::text::owned;

verus! {

/// The settings that the command line or the config file may give; each is optional.
#[derive(Debug)]
pub struct ConfigSources {
    pub dns_port: Option<u16>,
    pub http_port: Option<u16>,
    pub https_port: Option<u16>,
    pub socket: Option<String>,
    pub data_dir: Option<String>,
    pub upstream_dns: Option<SocketAddress>,
    pub log_level: Option<String>,
}

/// The daemon's settings.
#[derive(Debug)]
pub struct Config {
    pub dns_addr: SocketAddress,
    pub http_addr: SocketAddress,
    pub https_addr: SocketAddress,
    pub socket_path: String,
    pub data_dir: String,
    pub upstream_dns: SocketAddress,
    pub log_level: String,
    pub pid_path: String,
}

/// The default upstream DNS resolver, 1.1.1.1:53.
pub open spec fn default_upstream_dns() -> SocketAddress {
    SocketAddress::V4 { ip: [1u8, 1u8, 1u8, 1u8], port: 53u16 }
}

/// The address the DNS server listens on: 127.0.0.10 on Linux, 0.0.0.0 elsewhere.
pub open spec fn dns_listen_addr(on_linux: bool, port: u16) -> SocketAddress {
    SocketAddress::V4 {
        ip: if on_linux {
            [127u8, 0u8, 0u8, 10u8]
        } else {
            [0u8, 0u8, 0u8, 0u8]
        },
        port,
    }
}

/// The address 0.0.0.0 with this port.
pub open spec fn any_v4_addr(port: u16) -> SocketAddress {
    SocketAddress::V4 { ip: [0u8, 0u8, 0u8, 0u8], port }
}

/// The first of `a`, `b` that is given, else `d`.
pub open spec fn pick<T>(a: Option<T>, b: Option<T>, d: T) -> T {
    match a {
        Some(x) => x,
        None => match b {
            Some(y) => y,
            None => d,
        },
    }
}

/// The text of the first of `a`, `b` that is given, else `d`.
pub open spec fn pick_text(a: Option<String>, b: Option<String>, d: Seq<char>) -> Seq<char> {
    match a {
        Some(x) => x@,
        None => match b {
            Some(y) => y@,
            None => d,
        },
    }
}

/// The first of `a`, `b` that is given, else `d`.
fn first_given<T>(a: Option<T>, b: Option<T>, d: T) -> (r: T)
    ensures
        r == pick(a, b, d),
{
    match a {
        Some(x) => x,
        None => match b {
            Some(y) => y,
            None => d,
        },
    }
}

/// The first of `a`, `b` that is given, else `d`.
fn first_given_text(a: Option<String>, b: Option<String>, d: &str) -> (r: String)
    ensures
        r@ == pick_text(a, b, d@),
{
    match a {
        Some(x) => x,
        None => match b {
            Some(y) => y,
            None => owned(d),
        },
    }
}

impl Config {
    /// Settings from the command line `cli` over those of the config file
    /// `file`, over the defaults: DNS port 53, HTTP port 80, HTTPS port 443,
    /// socket `/var/run/gisonet.sock`, data directory `/var/lib/gisonet`,
    /// upstream DNS 1.1.1.1:53, log level `info`. DNS listens on 127.0.0.10
    /// on Linux and on 0.0.0.0 elsewhere; HTTP and HTTPS on 0.0.0.0. The pid
    /// file is `gisonet-daemon.pid` in the data directory.
    pub fn load(cli: ConfigSources, file: ConfigSources, on_linux: bool) -> (c: Config)
        ensures
            c.data_dir@ == pick_text(cli.data_dir, file.data_dir, "/var/lib/gisonet"@),
            c.socket_path@ == pick_text(cli.socket, file.socket, "/var/run/gisonet.sock"@),
            c.upstream_dns == pick(cli.upstream_dns, file.upstream_dns, default_upstream_dns()),
            c.log_level@ == pick_text(cli.log_level, file.log_level, "info"@),
            c.pid_path@ == join_path(c.data_dir@, "gisonet-daemon.pid"@),
            c.dns_addr == dns_listen_addr(on_linux, pick(cli.dns_port, file.dns_port, 53u16)),
            c.http_addr == any_v4_addr(pick(cli.http_port, file.http_port, 80u16)),
            c.https_addr == any_v4_addr(pick(cli.https_port, file.https_port, 443u16)),
    {
        let data_dir = first_given_text(cli.data_dir, file.data_dir, "/var/lib/gisonet");
        let socket_path = first_given_text(cli.socket, file.socket, "/var/run/gisonet.sock");
        let upstream_dns = first_given(
            cli.upstream_dns,
            file.upstream_dns,
            SocketAddress::V4 { ip: [1u8, 1u8, 1u8, 1u8], port: 53u16 },
        );
        let dns_port = first_given(cli.dns_port, file.dns_port, 53u16);
        let http_port = first_given(cli.http_port, file.http_port, 80u16);
        let https_port = first_given(cli.https_port, file.https_port, 443u16);
        let log_level = first_given_text(cli.log_level, file.log_level, "info");
        let pid_path = join(data_dir.as_str(), "gisonet-daemon.pid");
        let dns_host: [u8; 4] = if on_linux {
            [127u8, 0u8, 0u8, 10u8]
        } else {
            [0u8, 0u8, 0u8, 0u8]
        };
        Config {
            dns_addr: SocketAddress::V4 { ip: dns_host, port: dns_port },
            http_addr: SocketAddress::V4 { ip: [0u8, 0u8, 0u8, 0u8], port: http_port },
            https_addr: SocketAddress::V4 { ip: [0u8, 0u8, 0u8, 0u8], port: https_port },
            socket_path,
            data_dir,
            upstream_dns,
            log_level,
            pid_path,
        }
    }
}

/// A setting on the command line wins over the config file, and a setting in
/// either wins over the default.
pub proof fn law_config_precedence<T>(cli: Option<T>, file: Option<T>, d: T)
    ensures
        (cli is Some) ==> pick(cli, file, d) == cli->0,
        (cli is None) && (file is Some) ==> pick(cli, file, d) == file->0,
        (cli is None) && (file is None) ==> pick(cli, file, d) == d,
{
}

} // verus!

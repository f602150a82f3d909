//! The daemon's shared state: the upstream resolver and whether its servers run.
use vstd::prelude::*;
use crate::dns::DnsServer;
use crate::net::SocketAddress;
use crate::proxy::ProxyServer;

verus! {

/// Sets the upstream DNS resolver to the parsed address; an address that did
/// not parse (`None`) turns forwarding off.
pub fn set_resolver(resolver: &mut Option<SocketAddress>, parsed: Option<SocketAddress>)
    ensures
        *final(resolver) == parsed,
{
    *resolver = parsed;
}

/// Whether the DNS server is running.
pub fn is_dns_running(dns: &DnsServer) -> (r: bool)
    ensures
        r == dns@,
{
    dns.is_running()
}

/// Whether the proxy server is running.
pub fn is_proxy_running(proxy: &ProxyServer) -> (r: bool)
    ensures
        r == proxy@,
{
    proxy.is_running()
}

} // verus!

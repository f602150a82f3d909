//! The UI's side of the control protocol: the requests it sends and how it reads the answers.
use vstd::prelude::*;
use crate::protocol::{Request, RequestView, Response, ResponseView};
use crate::route::{RouteEntry, routes_view};
use crate::text::{owned, concat};

verus! {

/// The request that adds a route.
pub fn add_route_request(domain: &str, ip: &str, path: &str, upstream: &str) -> (r: Request)
    ensures
        r@ == (RequestView::AddRoute { domain: domain@, ip: ip@, path: path@, upstream: upstream@ }),
{
    Request::AddRoute { domain: owned(domain), ip: owned(ip), path: owned(path), upstream: owned(upstream) }
}

/// The request that removes a route.
pub fn remove_route_request(domain: &str, path: &str) -> (r: Request)
    ensures
        r@ == (RequestView::RemoveRoute { domain: domain@, path: path@ }),
{
    Request::RemoveRoute { domain: owned(domain), path: owned(path) }
}

/// The request that sets the upstream resolver.
pub fn set_resolver_request(addr: &str) -> (r: Request)
    ensures
        r@ == (RequestView::SetResolver { addr: addr@ }),
{
    Request::SetResolver { addr: owned(addr) }
}

/// The message of an error for an answer of the wrong kind.
pub open spec fn unexpected_message() -> Seq<char> {
    "unexpected response"@
}

/// Reads the answer to `GetRoutes`: the routes, or the daemon's error
/// prefixed with `daemon error: `, or `unexpected response`.
pub fn routes_reply(resp: Response) -> (r: Result<Vec<RouteEntry>, String>)
    ensures
        match resp@ {
            ResponseView::Routes { routes } => r is Ok && routes_view(r->Ok_0@) == routes,
            ResponseView::Error { msg } => r is Err && r->Err_0@ == "daemon error: "@ + msg,
            _ => r is Err && r->Err_0@ == unexpected_message(),
        },
{
    match resp {
        Response::Routes { routes } => Ok(routes),
        Response::Error { msg } => Err(concat("daemon error: ", msg.as_str())),
        _ => Err(owned("unexpected response")),
    }
}

/// Reads the answer to a request that changes something: success, or the
/// daemon's error message, or `unexpected response`.
pub fn ack_reply(resp: Response) -> (r: Result<(), String>)
    ensures
        match resp@ {
            ResponseView::Success => r is Ok,
            ResponseView::Error { msg } => r is Err && r->Err_0@ == msg,
            _ => r is Err && r->Err_0@ == unexpected_message(),
        },
{
    match resp {
        Response::Success => Ok(()),
        Response::Error { msg } => Err(msg),
        _ => Err(owned("unexpected response")),
    }
}

/// Reads the answer to `GetStatus`: whether DNS and the proxy run, or the
/// daemon's error message, or `unexpected response`.
pub fn status_reply(resp: Response) -> (r: Result<(bool, bool), String>)
    ensures
        match resp@ {
            ResponseView::Status { connected: _, dns_running, proxy_running } => r == Ok::<
                (bool, bool),
                String,
            >((dns_running, proxy_running)),
            ResponseView::Error { msg } => r is Err && r->Err_0@ == msg,
            _ => r is Err && r->Err_0@ == unexpected_message(),
        },
{
    match resp {
        Response::Status { connected: _, dns_running, proxy_running } => Ok((dns_running, proxy_running)),
        Response::Error { msg } => Err(msg),
        _ => Err(owned("unexpected response")),
    }
}

} // verus!

//! The control protocol between the UI and the daemon.
use vstd::prelude::*;
use crate::route::{RouteEntry, RouteView, routes_view};

verus! {

/// A request sent to the daemon.
#[derive(Debug)]
pub enum Request {
    AddRoute { domain: String, ip: String, path: String, upstream: String },
    RemoveRoute { domain: String, path: String },
    GetRoutes,
    SetResolver { addr: String },
    GetStatus,
}

/// The daemon's answer to a request.
#[derive(Debug)]
pub enum Response {
    Routes { routes: Vec<RouteEntry> },
    Status { connected: bool, dns_running: bool, proxy_running: bool },
    Resolver { addr: String },
    Error { msg: String },
    Success,
}

/// The mathematical value of a request.
pub enum RequestView {
    AddRoute { domain: Seq<char>, ip: Seq<char>, path: Seq<char>, upstream: Seq<char> },
    RemoveRoute { domain: Seq<char>, path: Seq<char> },
    GetRoutes,
    SetResolver { addr: Seq<char> },
    GetStatus,
}

/// The mathematical value of a response.
pub enum ResponseView {
    Routes { routes: Seq<RouteView> },
    Status { connected: bool, dns_running: bool, proxy_running: bool },
    Resolver { addr: Seq<char> },
    Error { msg: Seq<char> },
    Success,
}

impl View for Request {
    type V = RequestView;

    open spec fn view(&self) -> RequestView {
        match self {
            Request::AddRoute { domain, ip, path, upstream } => RequestView::AddRoute {
                domain: domain@,
                ip: ip@,
                path: path@,
                upstream: upstream@,
            },
            Request::RemoveRoute { domain, path } => RequestView::RemoveRoute {
                domain: domain@,
                path: path@,
            },
            Request::GetRoutes => RequestView::GetRoutes,
            Request::SetResolver { addr } => RequestView::SetResolver { addr: addr@ },
            Request::GetStatus => RequestView::GetStatus,
        }
    }
}

impl View for Response {
    type V = ResponseView;

    open spec fn view(&self) -> ResponseView {
        match self {
            Response::Routes { routes } => ResponseView::Routes { routes: routes_view(routes@) },
            Response::Status { connected, dns_running, proxy_running } => ResponseView::Status {
                connected: *connected,
                dns_running: *dns_running,
                proxy_running: *proxy_running,
            },
            Response::Resolver { addr } => ResponseView::Resolver { addr: addr@ },
            Response::Error { msg } => ResponseView::Error { msg: msg@ },
            Response::Success => ResponseView::Success,
        }
    }
}

} // verus!

use gisonet::protocol::Request;
use gisonet::route::RouteEntry;
use gisonet::net::IpAddress;
use gisonet::ui::{
    input_display, menu_choice, poll_due, proxy_line, route_count_label, status_label, DaemonState, Form,
    InputField, KeyOutcome, PollResult, TrayMsg,
};

#[test]
fn keys_without_focus_are_ignored() {
    let mut f = Form::new();
    assert_eq!(f.handle_key("a"), KeyOutcome::Ignored);
    assert_eq!(f.domain, "");
}

#[test]
fn typing_and_backspace() {
    let mut f = Form::new();
    f.focus(InputField::Domain);
    for k in ["a", "p", "p"] {
        assert_eq!(f.handle_key(k), KeyOutcome::Edited);
    }
    assert_eq!(f.domain, "app");
    assert_eq!(f.handle_key("backspace"), KeyOutcome::Edited);
    assert_eq!(f.domain, "ap");
    assert_eq!(f.handle_key("shift"), KeyOutcome::Ignored);
    assert_eq!(f.handle_key("é"), KeyOutcome::Ignored);
    assert_eq!(f.domain, "ap");
}

#[test]
fn backspace_on_empty_field() {
    let mut f = Form::new();
    f.focus(InputField::Path);
    assert_eq!(f.handle_key("backspace"), KeyOutcome::Edited);
    assert_eq!(f.path, "");
}

#[test]
fn backspace_undoes_typing() {
    let mut f = Form::new();
    f.focus(InputField::Upstream);
    f.upstream = "http://x".into();
    f.handle_key(":");
    f.handle_key("backspace");
    assert_eq!(f.upstream, "http://x");
}

#[test]
fn enter_submits() {
    let mut f = Form::new();
    f.focus(InputField::Ip);
    assert_eq!(f.handle_key("enter"), KeyOutcome::SubmitRoute);
    f.focus(InputField::Resolver);
    assert_eq!(f.handle_key("enter"), KeyOutcome::SubmitResolver);
}

#[test]
fn typing_goes_to_focused_field_only() {
    let mut f = Form::new();
    f.focus(InputField::Resolver);
    f.handle_key("1");
    assert_eq!(f.resolver, "1");
    assert_eq!(f.domain, "");
    assert_eq!(f.ip, "");
}

#[test]
fn route_request_needs_domain_and_defaults_ip() {
    let mut f = Form::new();
    assert!(f.route_request().is_none());
    assert!(f.removal_request().is_none());
    f.domain = "app.test".into();
    f.path = "/api".into();
    match f.route_request().unwrap() {
        Request::AddRoute { domain, ip, path, upstream } => {
            assert_eq!(domain, "app.test");
            assert_eq!(ip, "127.0.0.1");
            assert_eq!(path, "/api");
            assert_eq!(upstream, "");
        }
        other => panic!("unexpected {other:?}"),
    }
    f.ip = "10.1.1.1".into();
    assert!(matches!(f.route_request().unwrap(), Request::AddRoute { ip, .. } if ip == "10.1.1.1"));
    assert!(matches!(f.removal_request().unwrap(), Request::RemoveRoute { domain, path } if domain == "app.test" && path == "/api"));
}

#[test]
fn resolver_request_needs_text() {
    let mut f = Form::new();
    assert!(f.resolver_request().is_none());
    f.resolver = "1.1.1.1:53".into();
    assert!(matches!(f.resolver_request().unwrap(), Request::SetResolver { addr } if addr == "1.1.1.1:53"));
}

fn entry(path: &str) -> RouteEntry {
    RouteEntry { domain: "d".into(), ip: IpAddress::V4([127, 0, 0, 1]), path: path.into(), upstream: "http://u".into() }
}

#[test]
fn polling_updates_connection_state() {
    let mut s = DaemonState::new(false);
    assert!(!s.apply_poll(PollResult::Reconnected(true)));
    assert!(s.connected);
    assert!(!s.apply_poll(PollResult::Fetched(vec![entry("/")])));
    assert!(s.connected);
    assert_eq!(s.routes.len(), 1);
    assert!(s.apply_poll(PollResult::FetchFailed));
    assert!(!s.connected);
    assert_eq!(s.routes.len(), 1);
    assert!(!s.apply_poll(PollResult::Reconnected(false)));
    assert!(!s.connected);
}

#[test]
fn labels() {
    assert_eq!(route_count_label(0), "0 routes");
    assert_eq!(route_count_label(1), "1 route");
    assert_eq!(route_count_label(12), "12 routes");
    assert_eq!(status_label(true), "daemon connected");
    assert_eq!(status_label(false), "daemon offline");
    assert_eq!(proxy_line(&entry("")), "Proxy /  http://u");
    assert_eq!(proxy_line(&entry("/api")), "Proxy /api  http://u");
    assert_eq!(input_display("", "myapp.example.com"), ("myapp.example.com".to_string(), true));
    assert_eq!(input_display("x", "p"), ("x".to_string(), false));
}

#[test]
fn poll_interval() {
    assert!(!poll_due(2_999_999_999));
    assert!(poll_due(3_000_000_000));
}

#[test]
fn tray_menu() {
    assert_eq!(menu_choice("show"), Some(TrayMsg::Show));
    assert_eq!(menu_choice("quit"), Some(TrayMsg::Quit));
    assert_eq!(menu_choice("other"), None);
}

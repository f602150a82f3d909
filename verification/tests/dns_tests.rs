use gisonet::dns::{
    after_forward, ForwardStep,
    answer_query, forward_failed, forward_target, lookup_address, new_reply, AnswerRecord, DnsServer,
    QueryKind, QueryStep, ReplyCode,
};
use gisonet::net::{IpAddress, SocketAddress};
use gisonet::route::RouteEntry;
use gisonet::store::{add_route, new_store, RouteStore};

fn store_with(routes: &[(&str, IpAddress)]) -> RouteStore {
    let mut s = new_store();
    for (d, ip) in routes {
        add_route(
            &mut s,
            RouteEntry { domain: d.to_string(), ip: *ip, path: "/".to_string(), upstream: "http://u".to_string() },
        );
    }
    s
}

const V6: [u16; 8] = [0xfd00, 0, 0, 0, 0, 0, 0, 1];

#[test]
fn a_query_for_a_route_is_answered_locally() {
    let s = store_with(&[("myapp.test", IpAddress::V4([10, 0, 0, 7]))]);
    let mut reply = new_reply();
    let step = answer_query(&mut reply, &s, "myapp.test.", QueryKind::A);
    assert_eq!(step, QueryStep::Answered);
    assert_eq!(reply.code, ReplyCode::NoError);
    assert_eq!(reply.answers.len(), 1);
    match &reply.answers[0] {
        AnswerRecord::A { name, ttl, addr } => {
            assert_eq!(name, "myapp.test.");
            assert_eq!(*ttl, 300);
            assert_eq!(*addr, Some([10, 0, 0, 7]));
        }
        other => panic!("unexpected record {other:?}"),
    }
}

#[test]
fn route_domain_with_trailing_dot_still_matches() {
    let s = store_with(&[("myapp.test..", IpAddress::V4([10, 0, 0, 8]))]);
    assert!(matches!(lookup_address(&s, "myapp.test"), Some(IpAddress::V4([10, 0, 0, 8]))));
    let mut reply = new_reply();
    assert_eq!(answer_query(&mut reply, &s, "myapp.test", QueryKind::A), QueryStep::Answered);
}

#[test]
fn first_matching_route_wins() {
    let mut s = new_store();
    add_route(
        &mut s,
        RouteEntry { domain: "dup.test".into(), ip: IpAddress::V4([1, 1, 1, 1]), path: "/".into(), upstream: "u".into() },
    );
    add_route(
        &mut s,
        RouteEntry { domain: "dup.test".into(), ip: IpAddress::V4([2, 2, 2, 2]), path: "/api".into(), upstream: "u".into() },
    );
    assert!(matches!(lookup_address(&s, "dup.test"), Some(IpAddress::V4([1, 1, 1, 1]))));
}

#[test]
fn aaaa_query_for_v4_route_is_nxdomain() {
    let s = store_with(&[("myapp.test", IpAddress::V4([10, 0, 0, 7]))]);
    let mut reply = new_reply();
    assert_eq!(answer_query(&mut reply, &s, "myapp.test.", QueryKind::Aaaa), QueryStep::Answered);
    assert_eq!(reply.code, ReplyCode::NxDomain);
    assert!(reply.answers.is_empty());
}

#[test]
fn aaaa_query_for_v6_route_is_answered() {
    let s = store_with(&[("six.test", IpAddress::V6(V6))]);
    let mut reply = new_reply();
    assert_eq!(answer_query(&mut reply, &s, "six.test.", QueryKind::Aaaa), QueryStep::Answered);
    assert_eq!(reply.code, ReplyCode::NoError);
    assert!(matches!(&reply.answers[0], AnswerRecord::Aaaa { addr, .. } if *addr == V6));
}

#[test]
fn a_query_for_v6_route_gives_record_without_address() {
    let s = store_with(&[("six.test", IpAddress::V6(V6))]);
    let mut reply = new_reply();
    answer_query(&mut reply, &s, "six.test.", QueryKind::A);
    assert_eq!(reply.code, ReplyCode::NoError);
    assert!(matches!(&reply.answers[0], AnswerRecord::A { addr: None, .. }));
}

#[test]
fn other_query_type_for_route_is_nxdomain() {
    let s = store_with(&[("myapp.test", IpAddress::V4([10, 0, 0, 7]))]);
    let mut reply = new_reply();
    assert_eq!(answer_query(&mut reply, &s, "myapp.test.", QueryKind::Other), QueryStep::Answered);
    assert_eq!(reply.code, ReplyCode::NxDomain);
    assert!(reply.answers.is_empty());
}

#[test]
fn unknown_name_is_forwarded_and_reply_untouched() {
    let s = store_with(&[("myapp.test", IpAddress::V4([10, 0, 0, 7]))]);
    let mut reply = new_reply();
    assert_eq!(answer_query(&mut reply, &s, "example.com.", QueryKind::A), QueryStep::Forward);
    assert_eq!(reply.code, ReplyCode::NoError);
    assert!(reply.answers.is_empty());
    forward_failed(&mut reply);
    assert_eq!(reply.code, ReplyCode::ServFail);
}

#[test]
fn later_query_sets_the_code() {
    let s = store_with(&[("myapp.test", IpAddress::V4([10, 0, 0, 7]))]);
    let mut reply = new_reply();
    answer_query(&mut reply, &s, "myapp.test.", QueryKind::Aaaa);
    answer_query(&mut reply, &s, "myapp.test.", QueryKind::A);
    assert_eq!(reply.code, ReplyCode::NoError);
    assert_eq!(reply.answers.len(), 1);
}

#[test]
fn forward_target_needs_a_resolver() {
    assert!(forward_target(None, QueryKind::A).is_none());
    let r = SocketAddress::V4 { ip: [1, 1, 1, 1], port: 53 };
    let (addr, kind) = forward_target(Some(r), QueryKind::Other).unwrap();
    assert!(matches!(addr, SocketAddress::V4 { ip: [1, 1, 1, 1], port: 53 }));
    assert_eq!(kind, QueryKind::A);
    assert_eq!(forward_target(Some(r), QueryKind::Aaaa).unwrap().1, QueryKind::Aaaa);
    assert_eq!(forward_target(Some(r), QueryKind::A).unwrap().1, QueryKind::A);
}

#[test]
fn dns_server_running_flag() {
    let mut d = DnsServer::new();
    assert!(!d.is_running());
    d.set_running(true);
    assert!(d.is_running());
    assert!(gisonet::state::is_dns_running(&d));
    d.set_running(false);
    assert!(!gisonet::state::is_dns_running(&d));
}

#[test]
fn upstream_reply_ends_the_queries() {
    let mut reply = new_reply();
    assert_eq!(after_forward(&mut reply, true), ForwardStep::SendUpstreamReply);
    assert_eq!(reply.code, ReplyCode::NoError);
    assert_eq!(after_forward(&mut reply, false), ForwardStep::Continue);
    assert_eq!(reply.code, ReplyCode::ServFail);
}

//! DNS: which names the daemon answers itself, and with what.
use vstd::prelude::*;
use crate::net::{IpAddress, SocketAddress};
use crate::route::RouteView;
use crate::store::{RouteStore, routes_of};
use crate::route::routes_view;
use crate::text::{trim_end, trim_end_matches, str_eq};

verus! {

/// Whether the DNS server is up.
pub struct DnsServer {
    running: bool,
}

impl View for DnsServer {
    type V = bool;

    closed spec fn view(&self) -> bool {
        self.running
    }
}

impl DnsServer {
    /// A server that is not running.
    pub fn new() -> (s: Self)
        ensures
            !s@,
    {
        DnsServer { running: false }
    }

    /// Whether the server is running.
    pub fn is_running(&self) -> (r: bool)
        ensures
            r == self@,
    {
        self.running
    }

    /// Records that the server started (`true`) or stopped (`false`).
    pub fn set_running(&mut self, running: bool)
        ensures
            final(self)@ == running,
    {
        self.running = running;
    }
}

/// The record type a query asks for.
#[derive(Clone, Copy, Debug, PartialEq, Eq, Structural)]
pub enum QueryKind {
    A,
    Aaaa,
    Other,
}

/// The response code of a reply.
#[derive(Clone, Copy, Debug, PartialEq, Eq, Structural)]
pub enum ReplyCode {
    NoError,
    NxDomain,
    ServFail,
}

#[allow(inconsistent_fields)]
/// A record answered locally, with its time to live in seconds. An `A`
/// answer for a route whose address is IPv6 carries no address.
#[derive(Debug)]
pub enum AnswerRecord {
    A { name: String, ttl: u32, addr: Option<[u8; 4]> },
    Aaaa { name: String, ttl: u32, addr: [u16; 8] },
}

/// The time to live of locally answered records: 300 seconds.
pub const ANSWER_TTL: u32 = 300;

/// The mathematical value of an answer record.
#[allow(inconsistent_fields)]
pub enum AnswerView {
    A { name: Seq<char>, ttl: u32, addr: Option<[u8; 4]> },
    Aaaa { name: Seq<char>, ttl: u32, addr: [u16; 8] },
}

impl View for AnswerRecord {
    type V = AnswerView;

    open spec fn view(&self) -> AnswerView {
        match self {
            AnswerRecord::A { name, ttl, addr } => AnswerView::A { name: name@, ttl: *ttl, addr: *addr },
            AnswerRecord::Aaaa { name, ttl, addr } => AnswerView::Aaaa {
                name: name@,
                ttl: *ttl,
                addr: *addr,
            },
        }
    }
}

/// A reply being built: the answers so far and the current response code.
#[derive(Debug)]
pub struct DnsReply {
    pub answers: Vec<AnswerRecord>,
    pub code: ReplyCode,
}

/// The answers of a reply, as values.
pub open spec fn answers_view(v: Seq<AnswerRecord>) -> Seq<AnswerView> {
    v.map_values(|a: AnswerRecord| a@)
}

/// What a query leads to.
#[derive(Clone, Copy, Debug, PartialEq, Eq, Structural)]
pub enum QueryStep {
    /// Answered from the route table; go on with the next query.
    Answered,
    /// No route: ask the upstream resolver.
    Forward,
}

/// Whether a route answers for `qname`: its domain, without trailing dots, is `qname`.
pub open spec fn domain_matches(r: RouteView, qname: Seq<char>) -> bool {
    trim_end(r.domain, '.') == qname
}

/// The address of the first route that answers for `qname`.
pub open spec fn dns_lookup(routes: Seq<RouteView>, qname: Seq<char>) -> Option<IpAddress>
    decreases routes.len(),
{
    if routes.len() == 0 {
        None
    } else if domain_matches(routes[0], qname) {
        Some(routes[0].ip)
    } else {
        dns_lookup(routes.drop_first(), qname)
    }
}

/// The record (if any) and response code of a local answer of type `kind` for `fqdn`.
pub open spec fn local_answer(ip: IpAddress, fqdn: Seq<char>, kind: QueryKind) -> (
    Option<AnswerView>,
    ReplyCode,
) {
    match kind {
        QueryKind::A => (
            Some(
                AnswerView::A {
                    name: fqdn,
                    ttl: ANSWER_TTL,
                    addr: match ip {
                        IpAddress::V4(a) => Some(a),
                        IpAddress::V6(_) => None,
                    },
                },
            ),
            ReplyCode::NoError,
        ),
        QueryKind::Aaaa => match ip {
            IpAddress::V6(a) => (
                Some(AnswerView::Aaaa { name: fqdn, ttl: ANSWER_TTL, addr: a }),
                ReplyCode::NoError,
            ),
            IpAddress::V4(_) => (None, ReplyCode::NxDomain),
        },
        QueryKind::Other => (None, ReplyCode::NxDomain),
    }
}

/// An empty reply with response code `NoError`.
pub fn new_reply() -> (r: DnsReply)
    ensures
        r.answers@.len() == 0,
        r.code == ReplyCode::NoError,
{
    DnsReply { answers: Vec::new(), code: ReplyCode::NoError }
}

/// The address of the first route whose domain, without trailing dots, is `qname`.
pub fn lookup_address(store: &RouteStore, qname: &str) -> (r: Option<IpAddress>)
    ensures
        r == dns_lookup(store@, qname@),
{
    let routes = routes_of(store);
    let n = routes.len();
    let ghost s = store@;
    let mut i: usize = 0;
    proof {
        assert(s.skip(0) =~= s);
    }
    while i < n
        invariant
            n == routes@.len(),
            s == routes_view(routes@),
            s == store@,
            i <= n,
            dns_lookup(s, qname@) == dns_lookup(s.skip(i as int), qname@),
        decreases n - i,
    {
        let d = trim_end_matches(routes[i].domain.as_str(), '.');
        proof {
            assert(s.skip(i as int)[0] == s[i as int]);
            assert(s[i as int] == routes@[i as int]@);
            assert(s.skip(i as int).drop_first() =~= s.skip(i + 1));
        }
        if str_eq(d.as_str(), qname) {
            assert(domain_matches(s.skip(i as int)[0], qname@));
            assert(dns_lookup(s.skip(i as int), qname@) == Some(s.skip(i as int)[0].ip));
            return Some(routes[i].ip);
        }
        i = i + 1;
    }
    None
}

/// Handles one query: a name with a route is answered from the table, any
/// other name is to be forwarded upstream (and the reply is left as it was).
pub fn answer_query(reply: &mut DnsReply, store: &RouteStore, qname_fqdn: &str, kind: QueryKind) -> (step:
    QueryStep)
    ensures
        match dns_lookup(store@, trim_end(qname_fqdn@, '.')) {
            None => {
                &&& step == QueryStep::Forward
                &&& answers_view(final(reply).answers@) == answers_view(old(reply).answers@)
                &&& final(reply).code == old(reply).code
            },
            Some(ip) => {
                let (rec, code) = local_answer(ip, qname_fqdn@, kind);
                &&& step == QueryStep::Answered
                &&& final(reply).code == code
                &&& answers_view(final(reply).answers@) == match rec {
                    Some(a) => answers_view(old(reply).answers@).push(a),
                    None => answers_view(old(reply).answers@),
                }
            },
        },
{
    let qname = trim_end_matches(qname_fqdn, '.');
    let found = lookup_address(store, qname.as_str());
    match found {
        None => QueryStep::Forward,
        Some(ip) => {
            let ghost before = reply.answers@;
            match kind {
                QueryKind::A => {
                    let addr = match ip {
                        IpAddress::V4(a) => Some(a),
                        IpAddress::V6(_) => None,
                    };
                    reply.answers.push(
                        AnswerRecord::A { name: crate::text::owned(qname_fqdn), ttl: ANSWER_TTL, addr },
                    );
                    reply.code = ReplyCode::NoError;
                    assert(answers_view(reply.answers@) =~= answers_view(before).push(
                        reply.answers@.last()@,
                    ));
                },
                QueryKind::Aaaa => {
                    match ip {
                        IpAddress::V6(a) => {
                            reply.answers.push(
                                AnswerRecord::Aaaa {
                                    name: crate::text::owned(qname_fqdn),
                                    ttl: ANSWER_TTL,
                                    addr: a,
                                },
                            );
                            reply.code = ReplyCode::NoError;
                            assert(answers_view(reply.answers@) =~= answers_view(before).push(
                                reply.answers@.last()@,
                            ));
                        },
                        IpAddress::V4(_) => {
                            reply.code = ReplyCode::NxDomain;
                        },
                    }
                },
                QueryKind::Other => {
                    reply.code = ReplyCode::NxDomain;
                },
            }
            QueryStep::Answered
        },
    }
}

/// The upstream resolver could not answer a forwarded query: the reply fails with `ServFail`.
pub fn forward_failed(reply: &mut DnsReply)
    ensures
        answers_view(final(reply).answers@) == answers_view(old(reply).answers@),
        final(reply).code == ReplyCode::ServFail,
{
    reply.code = ReplyCode::ServFail;
}

/// What follows a forwarded query.
#[derive(Clone, Copy, Debug, PartialEq, Eq, Structural)]
pub enum ForwardStep {
    /// The upstream resolver answered: its reply is sent whole, in place of
    /// the reply built so far, and no further query is handled.
    SendUpstreamReply,
    /// The upstream resolver did not answer: the reply fails with `ServFail`
    /// and the next query is handled.
    Continue,
}

/// Takes in whether the upstream resolver answered a forwarded query.
pub fn after_forward(reply: &mut DnsReply, upstream_answered: bool) -> (step: ForwardStep)
    ensures
        answers_view(final(reply).answers@) == answers_view(old(reply).answers@),
        upstream_answered ==> step == ForwardStep::SendUpstreamReply && final(reply).code
            == old(reply).code,
        !upstream_answered ==> step == ForwardStep::Continue && final(reply).code
            == ReplyCode::ServFail,
{
    if upstream_answered {
        ForwardStep::SendUpstreamReply
    } else {
        forward_failed(reply);
        ForwardStep::Continue
    }
}

/// Where and as what a query is forwarded: to the configured resolver, if
/// any, asking for `A` records unless the query asked for `AAAA`.
pub fn forward_target(resolver: Option<SocketAddress>, kind: QueryKind) -> (r: Option<
    (SocketAddress, QueryKind),
>)
    ensures
        match resolver {
            None => r is None,
            Some(addr) => r == Some(
                (addr, if kind == QueryKind::Aaaa {
                    QueryKind::Aaaa
                } else {
                    QueryKind::A
                }),
            ),
        },
{
    match resolver {
        None => None,
        Some(addr) => {
            let k = match kind {
                QueryKind::Aaaa => QueryKind::Aaaa,
                _ => QueryKind::A,
            };
            Some((addr, k))
        },
    }
}

/// A route answers DNS for its own domain, with or without trailing dots,
/// unless an earlier route claims the same name.
pub proof fn law_route_answers_its_domain(routes: Seq<RouteView>, i: int, dots: nat)
    requires
        0 <= i < routes.len(),
        forall|j: int|
            0 <= j < i ==> !domain_matches(#[trigger] routes[j], trim_end(routes[i].domain, '.')),
    ensures
        dns_lookup(routes, trim_end(routes[i].domain + Seq::new(dots, |k: int| '.'), '.'))
            == Some(routes[i].ip),
    decreases i,
{
    lemma_trim_extra_dots(routes[i].domain, dots);
    if i > 0 {
        assert forall|j: int| 0 <= j < i - 1 implies !domain_matches(
            #[trigger] routes.drop_first()[j],
            trim_end(routes.drop_first()[i - 1].domain, '.'),
        ) by {
            assert(routes.drop_first()[j] == routes[j + 1]);
        }
        law_route_answers_its_domain(routes.drop_first(), i - 1, dots);
        assert(routes.drop_first()[i - 1] == routes[i]);
    }
}

/// Extra trailing dots do not change what a name trims to.
proof fn lemma_trim_extra_dots(s: Seq<char>, dots: nat)
    ensures
        trim_end(s + Seq::new(dots, |k: int| '.'), '.') == trim_end(s, '.'),
    decreases dots,
{
    let t = s + Seq::new(dots, |k: int| '.');
    if dots > 0 {
        assert(t.last() == '.');
        assert(t.drop_last() =~= s + Seq::new((dots - 1) as nat, |k: int| '.'));
        lemma_trim_extra_dots(s, (dots - 1) as nat);
    } else {
        assert(t =~= s);
    }
}

/// A name is answered with the address of the first route whose domain,
/// without trailing dots, equals it exactly; a name that no route's domain
/// equals is not answered locally.
pub proof fn law_dns_answers_exact_name(routes: Seq<RouteView>, qname: Seq<char>)
    ensures
        match dns_lookup(routes, qname) {
            Some(ip) => exists|i: int|
                0 <= i < routes.len() && trim_end(#[trigger] routes[i].domain, '.') == qname && ip
                    == routes[i].ip && (forall|j: int|
                    0 <= j < i ==> trim_end(#[trigger] routes[j].domain, '.') != qname),
            None => forall|i: int|
                0 <= i < routes.len() ==> trim_end(#[trigger] routes[i].domain, '.') != qname,
        },
    decreases routes.len(),
{
    if routes.len() > 0 {
        let t = routes.drop_first();
        law_dns_answers_exact_name(t, qname);
        if domain_matches(routes[0], qname) {
            assert(trim_end(routes[0].domain, '.') == qname);
        } else {
            match dns_lookup(t, qname) {
                Some(ip) => {
                    let k = choose|k: int|
                        0 <= k < t.len() && trim_end(#[trigger] t[k].domain, '.') == qname && ip
                            == t[k].ip && (forall|j: int|
                            0 <= j < k ==> trim_end(#[trigger] t[j].domain, '.') != qname);
                    assert(routes[k + 1] == t[k]);
                    assert forall|j: int| 0 <= j < k + 1 implies trim_end(
                        #[trigger] routes[j].domain,
                        '.',
                    ) != qname by {
                        if j > 0 {
                            assert(routes[j] == t[j - 1]);
                        }
                    }
                },
                None => {
                    assert forall|i: int| 0 <= i < routes.len() implies trim_end(
                        #[trigger] routes[i].domain,
                        '.',
                    ) != qname by {
                        if i > 0 {
                            assert(routes[i] == t[i - 1]);
                        }
                    }
                },
            }
        }
    }
}

} // verus!

//! The UI's logic: the input form, the daemon connection state, labels and the tray menu.
use vstd::prelude::*;
use vstd::string::*;
use crate::client::{add_route_request, remove_route_request, set_resolver_request};
use crate::protocol::{Request, RequestView};
use crate::route::{RouteEntry, RouteView, routes_view};
use crate::text::{owned, concat, str_eq, chars_to};

verus! {

/// The input fields of the form.
#[derive(Clone, Copy, Debug, PartialEq, Eq, Structural)]
pub enum InputField {
    Domain,
    Ip,
    Path,
    Upstream,
    Resolver,
}

/// The form: one text buffer per field, and the field that has the focus.
#[derive(Debug)]
pub struct Form {
    pub domain: String,
    pub ip: String,
    pub path: String,
    pub upstream: String,
    pub resolver: String,
    pub active: Option<InputField>,
}

/// The mathematical value of the form.
pub struct FormView {
    pub domain: Seq<char>,
    pub ip: Seq<char>,
    pub path: Seq<char>,
    pub upstream: Seq<char>,
    pub resolver: Seq<char>,
    pub active: Option<InputField>,
}

impl View for Form {
    type V = FormView;

    open spec fn view(&self) -> FormView {
        FormView {
            domain: self.domain@,
            ip: self.ip@,
            path: self.path@,
            upstream: self.upstream@,
            resolver: self.resolver@,
            active: self.active,
        }
    }
}

impl FormView {
    /// The text of field `f`.
    pub open spec fn value(self, f: InputField) -> Seq<char> {
        match f {
            InputField::Domain => self.domain,
            InputField::Ip => self.ip,
            InputField::Path => self.path,
            InputField::Upstream => self.upstream,
            InputField::Resolver => self.resolver,
        }
    }

    /// The form with the text of field `f` replaced by `v`.
    pub open spec fn with_value(self, f: InputField, v: Seq<char>) -> FormView {
        match f {
            InputField::Domain => FormView { domain: v, ..self },
            InputField::Ip => FormView { ip: v, ..self },
            InputField::Path => FormView { path: v, ..self },
            InputField::Upstream => FormView { upstream: v, ..self },
            InputField::Resolver => FormView { resolver: v, ..self },
        }
    }
}

/// What a key press asks of the UI.
#[derive(Clone, Copy, Debug, PartialEq, Eq, Structural)]
pub enum KeyOutcome {
    /// Nothing happened.
    Ignored,
    /// A buffer changed: redraw.
    Edited,
    /// Enter in a route field: add the route, then redraw.
    SubmitRoute,
    /// Enter in the resolver field: set the resolver, then redraw.
    SubmitResolver,
}

/// Whether the key's text is a single byte long (one ASCII character).
pub open spec fn is_single_byte(key: &str) -> bool {
    key.len() == 1
}

/// What `String::pop` leaves: the text without its last character.
pub open spec fn without_last(s: Seq<char>) -> Seq<char> {
    if s.len() > 0 {
        s.drop_last()
    } else {
        s
    }
}

/// The text without its last character, if any.
fn drop_last_char(s: &str) -> (r: String)
    ensures
        r@ == without_last(s@),
{
    let n = s.unicode_len();
    if n == 0 {
        owned(s)
    } else {
        chars_to(s, n - 1)
    }
}

impl Form {
    /// An empty form with no focused field.
    pub fn new() -> (f: Self)
        ensures
            f@.domain.len() == 0,
            f@.ip.len() == 0,
            f@.path.len() == 0,
            f@.upstream.len() == 0,
            f@.resolver.len() == 0,
            f@.active is None,
    {
        Form {
            domain: String::new(),
            ip: String::new(),
            path: String::new(),
            upstream: String::new(),
            resolver: String::new(),
            active: None,
        }
    }

    /// The text of field `f`.
    pub fn value(&self, f: InputField) -> (r: &String)
        ensures
            r@ == self@.value(f),
    {
        match f {
            InputField::Domain => &self.domain,
            InputField::Ip => &self.ip,
            InputField::Path => &self.path,
            InputField::Upstream => &self.upstream,
            InputField::Resolver => &self.resolver,
        }
    }

    /// Replaces the text of field `f`.
    pub fn set_value(&mut self, f: InputField, v: String)
        ensures
            final(self)@ == old(self)@.with_value(f, v@),
    {
        match f {
            InputField::Domain => self.domain = v,
            InputField::Ip => self.ip = v,
            InputField::Path => self.path = v,
            InputField::Upstream => self.upstream = v,
            InputField::Resolver => self.resolver = v,
        }
    }

    /// Gives the focus to field `f`.
    pub fn focus(&mut self, f: InputField)
        ensures
            final(self)@ == (FormView { active: Some(f), ..old(self)@ }),
    {
        self.active = Some(f);
    }

    /// A key press with key name `key`. Without a focused field nothing
    /// happens. `backspace` deletes the last character of the focused field;
    /// `enter` submits (the resolver from the resolver field, a route from any
    /// other); a key whose name is one byte long is typed into the field; any
    /// other key is ignored.
    pub fn handle_key(&mut self, key: &str) -> (o: KeyOutcome)
        ensures
            match old(self)@.active {
                None => o == KeyOutcome::Ignored && final(self)@ == old(self)@,
                Some(f) => if key@ == "backspace"@ {
                    &&& o == KeyOutcome::Edited
                    &&& final(self)@ == old(self)@.with_value(f, without_last(old(self)@.value(f)))
                } else if key@ == "enter"@ {
                    &&& o == (if f == InputField::Resolver {
                        KeyOutcome::SubmitResolver
                    } else {
                        KeyOutcome::SubmitRoute
                    })
                    &&& final(self)@ == old(self)@
                } else if is_single_byte(key) {
                    &&& o == KeyOutcome::Edited
                    &&& final(self)@ == old(self)@.with_value(f, old(self)@.value(f) + key@)
                } else {
                    o == KeyOutcome::Ignored && final(self)@ == old(self)@
                },
            },
    {
        let f = match self.active {
            None => return KeyOutcome::Ignored,
            Some(f) => f,
        };
        if str_eq(key, "backspace") {
            let v = drop_last_char(self.value(f).as_str());
            self.set_value(f, v);
            KeyOutcome::Edited
        } else if str_eq(key, "enter") {
            if f == InputField::Resolver {
                KeyOutcome::SubmitResolver
            } else {
                KeyOutcome::SubmitRoute
            }
        } else if key.len() == 1 {
            let v = concat(self.value(f).as_str(), key);
            self.set_value(f, v);
            KeyOutcome::Edited
        } else {
            KeyOutcome::Ignored
        }
    }

    /// The request that the Add button sends: none while the domain is
    /// empty; the address defaults to 127.0.0.1 when its field is empty.
    pub fn route_request(&self) -> (r: Option<Request>)
        ensures
            match r {
                None => self@.domain.len() == 0,
                Some(req) => self@.domain.len() > 0 && req@ == (RequestView::AddRoute {
                    domain: self@.domain,
                    ip: if self@.ip.len() == 0 {
                        "127.0.0.1"@
                    } else {
                        self@.ip
                    },
                    path: self@.path,
                    upstream: self@.upstream,
                }),
            },
    {
        if self.domain.as_str().unicode_len() == 0 {
            return None;
        }
        let ip = if self.ip.as_str().unicode_len() == 0 {
            owned("127.0.0.1")
        } else {
            owned(self.ip.as_str())
        };
        Some(
            add_route_request(
                self.domain.as_str(),
                ip.as_str(),
                self.path.as_str(),
                self.upstream.as_str(),
            ),
        )
    }

    /// The request that the Remove button sends: none while the domain is empty.
    pub fn removal_request(&self) -> (r: Option<Request>)
        ensures
            match r {
                None => self@.domain.len() == 0,
                Some(req) => self@.domain.len() > 0 && req@ == (RequestView::RemoveRoute {
                    domain: self@.domain,
                    path: self@.path,
                }),
            },
    {
        if self.domain.as_str().unicode_len() == 0 {
            return None;
        }
        Some(remove_route_request(self.domain.as_str(), self.path.as_str()))
    }

    /// The request that the Set button sends: none while the resolver field is empty.
    pub fn resolver_request(&self) -> (r: Option<Request>)
        ensures
            match r {
                None => self@.resolver.len() == 0,
                Some(req) => self@.resolver.len() > 0 && req@ == (RequestView::SetResolver {
                    addr: self@.resolver,
                }),
            },
    {
        if self.resolver.as_str().unicode_len() == 0 {
            return None;
        }
        Some(set_resolver_request(self.resolver.as_str()))
    }
}

/// Typing a one-byte key into the focused field and then pressing backspace
/// gives the field back as it was.
pub proof fn law_backspace_undoes_typing(form: FormView, f: InputField, key: Seq<char>)
    requires
        key.len() == 1,
    ensures
        form.with_value(f, form.value(f) + key).with_value(
            f,
            without_last(form.with_value(f, form.value(f) + key).value(f)),
        ) == form,
{
    let typed = form.with_value(f, form.value(f) + key);
    assert(typed.value(f) == form.value(f) + key);
    assert((form.value(f) + key).drop_last() =~= form.value(f));
}

/// What the UI knows of the daemon: the routes it last fetched, and whether it is connected.
#[derive(Debug)]
pub struct DaemonState {
    pub routes: Vec<RouteEntry>,
    pub connected: bool,
}

/// The outcome of one poll of the daemon.
#[derive(Debug)]
pub enum PollResult {
    /// The connected daemon sent its routes.
    Fetched(Vec<RouteEntry>),
    /// Asking the connected daemon failed.
    FetchFailed,
    /// There was no connection; connecting was tried, and succeeded or not.
    Reconnected(bool),
}

/// Whether a connection is held after a poll with this result: the one that
/// answered is kept, the one that failed is dropped, and a reconnection
/// attempt holds one exactly when it succeeded.
pub open spec fn holds_connection_after(result: PollResult) -> bool {
    match result {
        PollResult::Fetched(_) => true,
        PollResult::FetchFailed => false,
        PollResult::Reconnected(ok) => ok,
    }
}

impl DaemonState {
    /// Not connected, no routes.
    pub fn new(connected: bool) -> (s: Self)
        ensures
            s.routes@.len() == 0,
            s.connected == connected,
    {
        DaemonState { routes: Vec::new(), connected }
    }

    /// Takes in the result of a poll. Returns whether the connection is to be
    /// dropped (when asking it failed). A failed poll keeps the last routes.
    /// Afterwards the state is connected exactly when a connection is held.
    pub fn apply_poll(&mut self, result: PollResult) -> (drop_connection: bool)
        ensures
            final(self).connected == holds_connection_after(result),
            drop_connection == (result is FetchFailed),
            match result {
                PollResult::Fetched(routes) => {
                    &&& final(self).connected
                    &&& routes_view(final(self).routes@) == routes_view(routes@)
                    &&& !drop_connection
                },
                PollResult::FetchFailed => {
                    &&& !final(self).connected
                    &&& routes_view(final(self).routes@) == routes_view(old(self).routes@)
                    &&& drop_connection
                },
                PollResult::Reconnected(ok) => {
                    &&& final(self).connected == ok
                    &&& routes_view(final(self).routes@) == routes_view(old(self).routes@)
                    &&& !drop_connection
                },
            },
    {
        match result {
            PollResult::Fetched(routes) => {
                self.connected = true;
                self.routes = routes;
                false
            },
            PollResult::FetchFailed => {
                self.connected = false;
                true
            },
            PollResult::Reconnected(ok) => {
                self.connected = ok;
                false
            },
        }
    }
}

/// The decimal digits of `n`.
pub open spec fn decimal(n: nat) -> Seq<char>
    decreases n,
{
    if n < 10 {
        seq![(n + '0' as nat) as char]
    } else {
        decimal(n / 10) + seq![((n % 10) + '0' as nat) as char]
    }
}

/// `usize::to_string`: the decimal digits of `n`.
#[verifier::external_body]
fn usize_to_string(n: usize) -> (r: String)
    ensures
        r@ == decimal(n as nat),
{
    n.to_string()
}

/// The label of the route count: `1 route`, or `<n> routes` for any other `n`.
pub fn route_count_label(n: usize) -> (r: String)
    ensures
        r@ == decimal(n as nat) + (if n == 1 {
            " route"@
        } else {
            " routes"@
        }),
{
    let digits = usize_to_string(n);
    if n == 1 {
        concat(digits.as_str(), " route")
    } else {
        concat(digits.as_str(), " routes")
    }
}

/// The connection label: `daemon connected` or `daemon offline`.
pub fn status_label(connected: bool) -> (r: String)
    ensures
        r@ == if connected {
            "daemon connected"@
        } else {
            "daemon offline"@
        },
{
    if connected {
        owned("daemon connected")
    } else {
        owned("daemon offline")
    }
}

/// The proxy line of a route in the list: `Proxy <path>  <upstream>`, with
/// `/` shown for an empty path.
pub fn proxy_line(route: &RouteEntry) -> (r: String)
    ensures
        r@ == "Proxy "@ + (if route@.path.len() == 0 {
            "/"@
        } else {
            route@.path
        }) + "  "@ + route@.upstream,
{
    let path = if route.path.as_str().unicode_len() == 0 {
        owned("/")
    } else {
        owned(route.path.as_str())
    };
    let a = concat("Proxy ", path.as_str());
    let b = concat(a.as_str(), "  ");
    concat(b.as_str(), route.upstream.as_str())
}

/// The text shown in an input box: its value, or the placeholder while it is
/// empty; and whether the placeholder is shown.
pub fn input_display(value: &str, placeholder: &str) -> (r: (String, bool))
    ensures
        r.1 == (value@.len() == 0),
        r.0@ == if value@.len() == 0 {
            placeholder@
        } else {
            value@
        },
{
    if value.unicode_len() == 0 {
        (owned(placeholder), true)
    } else {
        (owned(value), false)
    }
}

/// Whether the daemon is due for another poll: three seconds have passed since the last.
pub fn poll_due(elapsed_nanos: u128) -> (r: bool)
    ensures
        r == (elapsed_nanos >= 3_000_000_000),
{
    elapsed_nanos >= 3_000_000_000u128
}

/// A message from the tray icon to the window.
#[derive(Clone, Copy, Debug, PartialEq, Eq, Structural)]
pub enum TrayMsg {
    Show,
    Quit,
}

/// The message for a tray menu entry: `show` shows the window, `quit` quits.
pub fn menu_choice(id: &str) -> (r: Option<TrayMsg>)
    ensures
        r == if id@ == "show"@ {
            Some(TrayMsg::Show)
        } else if id@ == "quit"@ {
            Some(TrayMsg::Quit)
        } else {
            None::<TrayMsg>
        },
{
    if str_eq(id, "show") {
        Some(TrayMsg::Show)
    } else if str_eq(id, "quit") {
        Some(TrayMsg::Quit)
    } else {
        None
    }
}

/// Each field of the form is its own buffer: reading a field gives that
/// buffer, and setting a field changes that buffer and no other.
pub proof fn law_form_fields_are_separate(form: FormView, v: Seq<char>)
    ensures
        form.value(InputField::Domain) == form.domain,
        form.value(InputField::Ip) == form.ip,
        form.value(InputField::Path) == form.path,
        form.value(InputField::Upstream) == form.upstream,
        form.value(InputField::Resolver) == form.resolver,
        form.with_value(InputField::Domain, v) == (FormView { domain: v, ..form }),
        form.with_value(InputField::Ip, v) == (FormView { ip: v, ..form }),
        form.with_value(InputField::Path, v) == (FormView { path: v, ..form }),
        form.with_value(InputField::Upstream, v) == (FormView { upstream: v, ..form }),
        form.with_value(InputField::Resolver, v) == (FormView { resolver: v, ..form }),
{
}

} // verus!

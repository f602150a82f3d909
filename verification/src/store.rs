//! The daemon's route table.
use vstd::prelude::*;
use crate::route::{RouteEntry, RouteView, routes_view, clone_routes};
use crate::text::str_eq;

verus! {

/// The route table: routes in the order they were added.
pub struct RouteStore {
    routes: Vec<RouteEntry>,
}

impl View for RouteStore {
    type V = Seq<RouteView>;

    closed spec fn view(&self) -> Seq<RouteView> {
        routes_view(self.routes@)
    }
}

/// Whether route `r` is the one keyed by `domain` and `path`.
pub open spec fn same_key(r: RouteView, domain: Seq<char>, path: Seq<char>) -> bool {
    r.domain == domain && r.path == path
}

/// Whether some route of `s` is keyed by `domain` and `path`.
pub open spec fn has_key(s: Seq<RouteView>, domain: Seq<char>, path: Seq<char>) -> bool {
    exists|i: int| 0 <= i < s.len() && same_key(#[trigger] s[i], domain, path)
}

/// `s` without the routes keyed by `domain` and `path`, order kept.
pub open spec fn without_key(s: Seq<RouteView>, domain: Seq<char>, path: Seq<char>) -> Seq<
    RouteView,
>
    decreases s.len(),
{
    if s.len() == 0 {
        s
    } else {
        let rest = without_key(s.drop_last(), domain, path);
        if same_key(s.last(), domain, path) {
            rest
        } else {
            rest.push(s.last())
        }
    }
}

/// No two routes share a domain and a path.
pub open spec fn keys_unique(s: Seq<RouteView>) -> bool {
    forall|i: int, j: int|
        0 <= i < j < s.len() ==> !same_key(#[trigger] s[i], #[trigger] s[j].domain, s[j].path)
}

/// An empty route table.
pub fn new_store() -> (s: RouteStore)
    ensures
        s@ == Seq::<RouteView>::empty(),
{
    let s = RouteStore { routes: Vec::new() };
    assert(s@ =~= Seq::<RouteView>::empty());
    s
}

/// Adds `entry` unless a route with the same domain and path exists.
/// Returns whether it was added.
pub fn add_route(store: &mut RouteStore, entry: RouteEntry) -> (added: bool)
    ensures
        added == !has_key(old(store)@, entry@.domain, entry@.path),
        added ==> final(store)@ == old(store)@.push(entry@),
        !added ==> final(store)@ == old(store)@,
{
    let n = store.routes.len();
    let mut i: usize = 0;
    while i < n
        invariant
            n == store.routes@.len(),
            i <= n,
            forall|j: int|
                0 <= j < i ==> !same_key(
                    #[trigger] routes_view(store.routes@)[j],
                    entry@.domain,
                    entry@.path,
                ),
        decreases n - i,
    {
        let r = &store.routes[i];
        if r.domain == entry.domain && r.path == entry.path {
            assert(same_key(routes_view(store.routes@)[i as int], entry@.domain, entry@.path));
            return false;
        }
        i = i + 1;
    }
    let ghost before = store.routes@;
    store.routes.push(entry);
    proof {
        assert(routes_view(store.routes@) =~= routes_view(before).push(entry@));
    }
    true
}

/// Removes every route with this domain and path. Returns whether one was removed.
pub fn remove_route(store: &mut RouteStore, domain: &str, path: &str) -> (removed: bool)
    ensures
        removed == has_key(old(store)@, domain@, path@),
        final(store)@ == without_key(old(store)@, domain@, path@),
{
    let n = store.routes.len();
    let ghost s = store@;
    let mut kept: Vec<RouteEntry> = Vec::new();
    let mut removed = false;
    let mut i: usize = 0;
    while i < n
        invariant
            n == store.routes@.len(),
            s == store@,
            s == routes_view(store.routes@),
            i <= n,
            routes_view(kept@) == without_key(s.take(i as int), domain@, path@),
            removed == has_key(s.take(i as int), domain@, path@),
        decreases n - i,
    {
        let r = &store.routes[i];
        let matches = str_eq(r.domain.as_str(), domain) && str_eq(r.path.as_str(), path);
        proof {
            assert(s.take(i + 1).drop_last() =~= s.take(i as int));
            assert(s.take(i + 1).last() == s[i as int]);
            assert(s[i as int] == r@);
        }
        if matches {
            removed = true;
            proof {
                assert(same_key(s.take(i + 1)[i as int], domain@, path@));
            }
        } else {
            let ghost before = kept@;
            kept.push(r.clone());
            proof {
                assert(routes_view(kept@) =~= routes_view(before).push(r@));
                if has_key(s.take(i + 1), domain@, path@) {
                    let k = choose|k: int|
                        0 <= k < i + 1 && same_key(#[trigger] s.take(i + 1)[k], domain@, path@);
                    assert(k < i);
                    assert(s.take(i as int)[k] == s.take(i + 1)[k]);
                }
            }
        }
        proof {
            if has_key(s.take(i as int), domain@, path@) {
                let k = choose|k: int|
                    0 <= k < i && same_key(#[trigger] s.take(i as int)[k], domain@, path@);
                assert(s.take(i + 1)[k] == s.take(i as int)[k]);
            }
        }
        i = i + 1;
    }
    proof {
        assert(s.take(n as int) =~= s);
    }
    store.routes = kept;
    removed
}

/// A copy of the routes, in order.
pub fn list_routes(store: &RouteStore) -> (r: Vec<RouteEntry>)
    ensures
        routes_view(r@) == store@,
{
    clone_routes(&store.routes)
}

/// Replaces the whole table with `routes` (as loading a saved table does).
pub fn replace_routes(store: &mut RouteStore, routes: Vec<RouteEntry>)
    ensures
        final(store)@ == routes_view(routes@),
{
    store.routes = routes;
}

/// The routes of the table, read in place.
pub fn routes_of(store: &RouteStore) -> (r: &Vec<RouteEntry>)
    ensures
        routes_view(r@) == store@,
{
    &store.routes
}

/// Routes left by `without_key` are routes of the input.
proof fn lemma_without_key_subset(s: Seq<RouteView>, domain: Seq<char>, path: Seq<char>, x: int)
    requires
        0 <= x < without_key(s, domain, path).len(),
    ensures
        exists|i: int| 0 <= i < s.len() && s[i] == without_key(s, domain, path)[x],
        !same_key(without_key(s, domain, path)[x], domain, path),
    decreases s.len(),
{
    let rest = without_key(s.drop_last(), domain, path);
    if x < rest.len() {
        lemma_without_key_subset(s.drop_last(), domain, path, x);
        let i = choose|i: int| 0 <= i < s.drop_last().len() && s.drop_last()[i] == rest[x];
        assert(s[i] == s.drop_last()[i]);
    } else {
        assert(s[s.len() - 1] == s.last());
    }
}

/// Without the routes of a key, the table is unchanged when it has none of them.
pub proof fn lemma_without_absent_key(s: Seq<RouteView>, domain: Seq<char>, path: Seq<char>)
    requires
        !has_key(s, domain, path),
    ensures
        without_key(s, domain, path) == s,
    decreases s.len(),
{
    if s.len() > 0 {
        assert(!has_key(s.drop_last(), domain, path)) by {
            if has_key(s.drop_last(), domain, path) {
                let k = choose|k: int|
                    0 <= k < s.drop_last().len() && same_key(
                        #[trigger] s.drop_last()[k],
                        domain,
                        path,
                    );
                assert(s[k] == s.drop_last()[k]);
            }
        }
        lemma_without_absent_key(s.drop_last(), domain, path);
        assert(!same_key(s[s.len() - 1], domain, path));
        assert(s.drop_last().push(s.last()) =~= s);
    }
}

/// Removing a route that was just added gives back the table as it was before.
pub proof fn law_add_then_remove(s: Seq<RouteView>, e: RouteView)
    requires
        !has_key(s, e.domain, e.path),
    ensures
        has_key(s.push(e), e.domain, e.path),
        without_key(s.push(e), e.domain, e.path) == s,
{
    assert(s.push(e)[s.len() as int] == e);
    assert(s.push(e).drop_last() =~= s);
    lemma_without_absent_key(s, e.domain, e.path);
}

/// After a removal no route with that domain and path is left, so removing again finds none.
pub proof fn law_remove_is_complete(s: Seq<RouteView>, domain: Seq<char>, path: Seq<char>)
    ensures
        !has_key(without_key(s, domain, path), domain, path),
{
    if has_key(without_key(s, domain, path), domain, path) {
        let k = choose|k: int|
            0 <= k < without_key(s, domain, path).len() && same_key(
                #[trigger] without_key(s, domain, path)[k],
                domain,
                path,
            );
        lemma_without_key_subset(s, domain, path, k);
    }
}

/// An add that succeeds keeps the domain-and-path keys of the table distinct.
pub proof fn law_add_keeps_keys_unique(s: Seq<RouteView>, e: RouteView)
    requires
        keys_unique(s),
        !has_key(s, e.domain, e.path),
    ensures
        keys_unique(s.push(e)),
{
    let t = s.push(e);
    assert forall|i: int, j: int| 0 <= i < j < t.len() implies !same_key(
        #[trigger] t[i],
        #[trigger] t[j].domain,
        t[j].path,
    ) by {
        if j == s.len() {
            assert(t[i] == s[i]);
            if same_key(t[i], e.domain, e.path) {
                assert(same_key(s[i], e.domain, e.path));
            }
        } else {
            assert(t[i] == s[i] && t[j] == s[j]);
        }
    }
}

/// A removal keeps the domain-and-path keys of the table distinct.
pub proof fn law_remove_keeps_keys_unique(s: Seq<RouteView>, domain: Seq<char>, path: Seq<char>)
    requires
        keys_unique(s),
    ensures
        keys_unique(without_key(s, domain, path)),
    decreases s.len(),
{
    if s.len() > 0 {
        let p = s.drop_last();
        assert(keys_unique(p)) by {
            assert forall|i: int, j: int| 0 <= i < j < p.len() implies !same_key(
                #[trigger] p[i],
                #[trigger] p[j].domain,
                p[j].path,
            ) by {
                assert(p[i] == s[i] && p[j] == s[j]);
            }
        }
        law_remove_keeps_keys_unique(p, domain, path);
        let rest = without_key(p, domain, path);
        if !same_key(s.last(), domain, path) {
            let t = rest.push(s.last());
            assert forall|i: int, j: int| 0 <= i < j < t.len() implies !same_key(
                #[trigger] t[i],
                #[trigger] t[j].domain,
                t[j].path,
            ) by {
                if j == rest.len() {
                    lemma_without_key_subset(p, domain, path, i);
                    let k = choose|k: int| 0 <= k < p.len() && p[k] == rest[i];
                    assert(s[k] == p[k]);
                    assert(t[i] == rest[i]);
                    assert(t[j] == s[s.len() - 1]);
                } else {
                    assert(t[i] == rest[i] && t[j] == rest[j]);
                }
            }
        }
    }
}

} // verus!

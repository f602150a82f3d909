//! Certificates: where they are kept on disk, and the cache of leaf certificates by domain.
use vstd::prelude::*;
use crate::paths::{join, join_path};
use crate::text::str_eq;

verus! {

/// The root CA certificate: `certs/ca.crt` in the data directory.
pub fn ca_cert_path(data_dir: &str) -> (r: String)
    ensures
        r@ == join_path(data_dir@, "certs/ca.crt"@),
{
    join(data_dir, "certs/ca.crt")
}

/// The root CA key: `certs/ca.key` in the data directory.
pub fn ca_key_path(data_dir: &str) -> (r: String)
    ensures
        r@ == join_path(data_dir@, "certs/ca.key"@),
{
    join(data_dir, "certs/ca.key")
}

/// The directory that holds the certificates: `certs` in the data directory.
pub fn certs_dir(data_dir: &str) -> (r: String)
    ensures
        r@ == join_path(data_dir@, "certs"@),
{
    join(data_dir, "certs")
}

/// The directory of a domain's leaf certificate: `certs/<domain>` in the data directory.
pub open spec fn leaf_dir(data_dir: Seq<char>, domain: Seq<char>) -> Seq<char> {
    join_path(join_path(data_dir, "certs"@), domain)
}

/// The leaf certificate of `domain`: `cert.pem` in its directory.
pub fn leaf_cert_path(data_dir: &str, domain: &str) -> (r: String)
    ensures
        r@ == join_path(leaf_dir(data_dir@, domain@), "cert.pem"@),
{
    let d = join(certs_dir(data_dir).as_str(), domain);
    join(d.as_str(), "cert.pem")
}

/// The leaf key of `domain`: `key.pem` in its directory.
pub fn leaf_key_path(data_dir: &str, domain: &str) -> (r: String)
    ensures
        r@ == join_path(leaf_dir(data_dir@, domain@), "key.pem"@),
{
    let d = join(certs_dir(data_dir).as_str(), domain);
    join(d.as_str(), "key.pem")
}

/// A cache of values (certified keys) by domain name.
pub struct CertCache<V> {
    entries: Vec<(String, V)>,
}

/// The map that a list of entries stands for: a later entry for a domain wins.
pub open spec fn entries_map<V>(s: Seq<(String, V)>) -> Map<Seq<char>, V>
    decreases s.len(),
{
    if s.len() == 0 {
        Map::empty()
    } else {
        entries_map(s.drop_last()).insert(s.last().0@, s.last().1)
    }
}

impl<V> View for CertCache<V> {
    type V = Map<Seq<char>, V>;

    closed spec fn view(&self) -> Map<Seq<char>, V> {
        entries_map(self.entries@)
    }
}

/// An entry for `k` at `i` with none after it gives the map's value for `k`.
proof fn lemma_last_entry<V>(s: Seq<(String, V)>, k: Seq<char>, i: int)
    requires
        0 <= i < s.len(),
        s[i].0@ == k,
        forall|j: int| i < j < s.len() ==> (#[trigger] s[j]).0@ != k,
    ensures
        entries_map(s).contains_key(k),
        entries_map(s)[k] == s[i].1,
    decreases s.len(),
{
    if i < s.len() - 1 {
        assert forall|j: int| i < j < s.drop_last().len() implies (
        #[trigger] s.drop_last()[j]).0@ != k by {
            assert(s.drop_last()[j] == s[j]);
        }
        lemma_last_entry(s.drop_last(), k, i);
        assert(s.last() == s[s.len() - 1]);
    }
}

/// With no entry for `k`, the map has no value for it.
proof fn lemma_no_entry<V>(s: Seq<(String, V)>, k: Seq<char>)
    requires
        forall|j: int| 0 <= j < s.len() ==> (#[trigger] s[j]).0@ != k,
    ensures
        !entries_map(s).contains_key(k),
    decreases s.len(),
{
    if s.len() > 0 {
        assert forall|j: int| 0 <= j < s.drop_last().len() implies (
        #[trigger] s.drop_last()[j]).0@ != k by {
            assert(s.drop_last()[j] == s[j]);
        }
        lemma_no_entry(s.drop_last(), k);
        assert(s.last() == s[s.len() - 1]);
    }
}

/// Overwriting the last entry for `k` sets the map's value for `k`.
proof fn lemma_overwrite<V>(s: Seq<(String, V)>, i: int, e: (String, V))
    requires
        0 <= i < s.len(),
        s[i].0@ == e.0@,
        forall|j: int| i < j < s.len() ==> (#[trigger] s[j]).0@ != e.0@,
    ensures
        entries_map(s.update(i, e)) == entries_map(s).insert(e.0@, e.1),
    decreases s.len(),
{
    let t = s.update(i, e);
    if i == s.len() - 1 {
        assert(t.drop_last() =~= s.drop_last());
        assert(t.last() == e);
        assert(entries_map(t) =~= entries_map(s).insert(e.0@, e.1));
    } else {
        assert(t.drop_last() =~= s.drop_last().update(i, e));
        assert forall|j: int| i < j < s.drop_last().len() implies (
        #[trigger] s.drop_last()[j]).0@ != e.0@ by {
            assert(s.drop_last()[j] == s[j]);
        }
        lemma_overwrite(s.drop_last(), i, e);
        assert(t.last() == s.last());
        assert(s.last() == s[s.len() - 1]);
        assert(entries_map(t) =~= entries_map(s).insert(e.0@, e.1));
    }
}

impl<V> CertCache<V> {
    /// An empty cache.
    pub fn new() -> (c: Self)
        ensures
            c@ == Map::<Seq<char>, V>::empty(),
    {
        CertCache { entries: Vec::new() }
    }

    /// The index of the last entry for `domain`, if any.
    fn find(&self, domain: &str) -> (r: Option<usize>)
        ensures
            match r {
                Some(i) => i < self.entries@.len() && self.entries@[i as int].0@ == domain@
                    && forall|j: int|
                    i < j < self.entries@.len() ==> (#[trigger] self.entries@[j]).0@ != domain@,
                None => forall|j: int|
                    0 <= j < self.entries@.len() ==> (#[trigger] self.entries@[j]).0@ != domain@,
            },
    {
        let mut i: usize = self.entries.len();
        while i > 0
            invariant
                i <= self.entries@.len(),
                forall|j: int|
                    i <= j < self.entries@.len() ==> (#[trigger] self.entries@[j]).0@ != domain@,
            decreases i,
        {
            if str_eq(self.entries[i - 1].0.as_str(), domain) {
                return Some(i - 1);
            }
            i = i - 1;
        }
        None
    }

    /// The cached value for `domain`.
    pub fn get(&self, domain: &str) -> (r: Option<&V>)
        ensures
            match r {
                Some(v) => self@.contains_key(domain@) && self@[domain@] == *v,
                None => !self@.contains_key(domain@),
            },
    {
        match self.find(domain) {
            Some(i) => {
                proof {
                    lemma_last_entry(self.entries@, domain@, i as int);
                }
                Some(&self.entries[i].1)
            },
            None => {
                proof {
                    lemma_no_entry(self.entries@, domain@);
                }
                None
            },
        }
    }

    /// Caches `value` for `domain`, replacing any value cached for it before.
    pub fn insert(&mut self, domain: String, value: V)
        ensures
            final(self)@ == old(self)@.insert(domain@, value),
    {
        match self.find(domain.as_str()) {
            Some(i) => {
                let ghost s = self.entries@;
                let ghost e = (domain, value);
                proof {
                    lemma_overwrite(s, i as int, e);
                }
                self.entries.set(i, (domain, value));
                assert(self.entries@ == s.update(i as int, e));
            },
            None => {
                let ghost s = self.entries@;
                self.entries.push((domain, value));
                assert(self.entries@.drop_last() =~= s);
            },
        }
    }
}

} // verus!

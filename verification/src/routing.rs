//! Exact-match routing.
//!
//! A routing table maps (method, path) keys to handler values. Registration
//! overwrites: the newest handler for a key wins. Lookup is exact string
//! equality on the path bytes, and the `NONE` sentinel method never matches
//! anything. The table is built before serving starts and is only read
//! afterwards, so the handler type is any plain copyable value (a function
//! pointer in the server around this library).

use vstd::prelude::*;
use crate::request::HttpRequestTypes;

verus! {

/// One registration: a (method, path) key and its handler.
pub struct RouteEntry<H> {
    pub method: HttpRequestTypes,
    pub path: Vec<u8>,
    pub handler: H,
}

/// The routing table. Registrations are kept in order; the newest entry for
/// a key shadows the older ones, which is exactly `Map::insert` in the view.
pub struct RoutingTable<H> {
    entries: Vec<RouteEntry<H>>,
}

/// The mapping a sequence of registrations denotes: later entries win.
pub open spec fn as_map<H>(s: Seq<RouteEntry<H>>) -> Map<(HttpRequestTypes, Seq<u8>), H>
    decreases s.len(),
{
    if s.len() == 0 {
        Map::empty()
    } else {
        as_map(s.drop_last()).insert((s.last().method, s.last().path@), s.last().handler)
    }
}

/// What lookup yields on a table's mapping: nothing for the `NONE` sentinel,
/// else the handler registered for the exact (method, path) key, if any.
pub open spec fn route_lookup<H>(
    m: Map<(HttpRequestTypes, Seq<u8>), H>,
    method: HttpRequestTypes,
    path: Seq<u8>,
) -> Option<H> {
    if method == HttpRequestTypes::NONE {
        None
    } else if m.contains_key((method, path)) {
        Some(m[(method, path)])
    } else {
        None
    }
}

impl<H: Copy> View for RoutingTable<H> {
    type V = Map<(HttpRequestTypes, Seq<u8>), H>;

    closed spec fn view(&self) -> Map<(HttpRequestTypes, Seq<u8>), H> {
        as_map(self.entries@)
    }
}

impl<H: Copy> RoutingTable<H> {
    /// An empty table: no key has a handler.
    pub fn new() -> (r: Self)
        ensures
            r@ == Map::<(HttpRequestTypes, Seq<u8>), H>::empty(),
    {
        RoutingTable { entries: Vec::new() }
    }

    /// Register a handler for an exact (method, path) key, overwriting any
    /// previous registration for that key. The `NONE` sentinel is excluded
    /// from the table's key range and may not be registered.
    pub fn register(&mut self, method: HttpRequestTypes, path: &[u8], handler: H)
        requires
            method != HttpRequestTypes::NONE,
        ensures
            final(self)@ == old(self)@.insert((method, path@), handler),
    {
        let entry = RouteEntry { method, path: vstd::slice::slice_to_vec(path), handler };
        let ghost before = self.entries@;
        self.entries.push(entry);
        proof {
            assert(self.entries@.drop_last() =~= before);
        }
    }

    /// An identical table: the same mapping, as a value of its own. The
    /// table is built once before serving starts and each worker takes a
    /// copy on spawn, so concurrent lookups never share mutable state.
    pub fn duplicate(&self) -> (r: Self)
        ensures
            r@ == self@,
    {
        let mut entries: Vec<RouteEntry<H>> = Vec::new();
        let mut i: usize = 0;
        while i < self.entries.len()
            invariant
                i <= self.entries@.len(),
                entries@.len() == i,
                forall|k: int|
                    0 <= k < i ==> entries@[k].method == self.entries@[k].method
                        && entries@[k].path@ == self.entries@[k].path@ && entries@[k].handler
                        == self.entries@[k].handler,
            decreases self.entries@.len() - i,
        {
            let entry = RouteEntry {
                method: self.entries[i].method,
                path: vstd::slice::slice_to_vec(self.entries[i].path.as_slice()),
                handler: self.entries[i].handler,
            };
            entries.push(entry);
            i = i + 1;
        }
        proof {
            lemma_as_map_congruent(entries@, self.entries@);
        }
        RoutingTable { entries }
    }

    /// Look up the handler registered for exactly (method, path). The `NONE`
    /// sentinel never matches; otherwise the newest registration for the key
    /// is returned, or nothing when the key was never registered.
    pub fn lookup(&self, method: HttpRequestTypes, path: &[u8]) -> (r: Option<H>)
        ensures
            r == route_lookup(self@, method, path@),
    {
        if method == HttpRequestTypes::NONE {
            return None;
        }
        let ghost key = (method, path@);
        let mut i: usize = self.entries.len();
        proof {
            assert(self.entries@.subrange(0, i as int) =~= self.entries@);
        }
        while i > 0
            invariant
                i <= self.entries@.len(),
                key == (method, path@),
                method != HttpRequestTypes::NONE,
                map_get(as_map(self.entries@), key) == map_get(
                    as_map(self.entries@.subrange(0, i as int)),
                    key,
                ),
            decreases i,
        {
            i = i - 1;
            let ghost prefix1 = self.entries@.subrange(0, i + 1);
            let ghost prefix0 = self.entries@.subrange(0, i as int);
            let ghost last = self.entries@[i as int];
            proof {
                assert(prefix1.drop_last() =~= prefix0);
                assert(prefix1.last() == last);
                assert(as_map(prefix1) == as_map(prefix0).insert(
                    (last.method, last.path@),
                    last.handler,
                ));
            }
            if self.entries[i].method == method && vec_eq_slice(&self.entries[i].path, path) {
                proof {
                    assert(key == (last.method, last.path@));
                    assert(map_get(as_map(prefix1), key) == Some(last.handler));
                }
                return Some(self.entries[i].handler);
            }
            proof {
                assert(key != (last.method, last.path@));
                assert(map_get(as_map(prefix1), key) == map_get(as_map(prefix0), key));
            }
        }
        proof {
            assert(self.entries@.subrange(0, 0) =~= Seq::<RouteEntry<H>>::empty());
        }
        None
    }
}

/// Two entry sequences whose entries agree on method, path bytes and
/// handler denote the same mapping.
proof fn lemma_as_map_congruent<H>(s1: Seq<RouteEntry<H>>, s2: Seq<RouteEntry<H>>)
    requires
        s1.len() == s2.len(),
        forall|i: int|
            0 <= i < s1.len() ==> s1[i].method == s2[i].method && s1[i].path@ == s2[i].path@
                && s1[i].handler == s2[i].handler,
    ensures
        as_map(s1) == as_map(s2),
    decreases s1.len(),
{
    if s1.len() > 0 {
        lemma_as_map_congruent(s1.drop_last(), s2.drop_last());
    }
}

/// A map's value at a key, or nothing when the key is absent.
spec fn map_get<H>(m: Map<(HttpRequestTypes, Seq<u8>), H>, k: (HttpRequestTypes, Seq<u8>)) -> Option<H> {
    if m.contains_key(k) {
        Some(m[k])
    } else {
        None
    }
}

/// Byte-for-byte equality of a stored path and a request path.
fn vec_eq_slice(a: &Vec<u8>, b: &[u8]) -> (r: bool)
    ensures
        r == (a@ == b@),
{
    if a.len() != b.len() {
        return false;
    }
    let mut i: usize = 0;
    while i < a.len()
        invariant
            i <= a@.len(),
            a@.len() == b@.len(),
            forall|k: int| 0 <= k < i ==> a@[k] == b@[k],
        decreases a@.len() - i,
    {
        if a[i] != b[i] {
            return false;
        }
        i = i + 1;
    }
    proof {
        assert(a@ =~= b@);
    }
    true
}

/// Re-registering a key replaces its handler: after registering `h1` and
/// then `h2` for the same (method, path), lookup yields `h2`, and the
/// earlier handler is gone from the mapping.
pub proof fn lemma_reregister_replaces<H>(
    m: Map<(HttpRequestTypes, Seq<u8>), H>,
    method: HttpRequestTypes,
    path: Seq<u8>,
    h1: H,
    h2: H,
)
    requires
        method != HttpRequestTypes::NONE,
    ensures
        route_lookup(m.insert((method, path), h1).insert((method, path), h2), method, path)
            == Some(h2),
{
}

/// The `NONE` sentinel never matches any registered route, whatever the path
/// and whatever the table holds.
pub proof fn lemma_none_never_matches<H>(m: Map<(HttpRequestTypes, Seq<u8>), H>, path: Seq<u8>)
    ensures
        route_lookup(m, HttpRequestTypes::NONE, path) is None,
{
}

} // verus!

//! Searching the inventory: the servers of one category that match a query,
//! and the matches over all categories.
use vstd::prelude::*;

use crate::config::{Category, Server};
use crate::text::{contains, contains_chars, chars_of, lowercase, to_lowercase};

verus! {

/// A server matches a query when the query is empty or, ignoring case, occurs
/// in the server's name or host.
pub open spec fn server_matches(s: Server, q: Seq<char>) -> bool {
    q.len() == 0 || contains(lowercase(s.name@), lowercase(q)) || contains(
        lowercase(s.host@),
        lowercase(q),
    )
}

/// Indices, in increasing order, of the servers among the first `n` that match `q`.
pub open spec fn matching_upto(servers: Seq<Server>, q: Seq<char>, n: int) -> Seq<usize>
    decreases n,
{
    if n <= 0 {
        Seq::empty()
    } else if server_matches(servers[n - 1], q) {
        matching_upto(servers, q, n - 1).push((n - 1) as usize)
    } else {
        matching_upto(servers, q, n - 1)
    }
}

/// Indices, in increasing order, of the servers that match `q`.
pub open spec fn matching(servers: Seq<Server>, q: Seq<char>) -> Seq<usize> {
    matching_upto(servers, q, servers.len() as int)
}

/// Every index that `matching_upto` yields is below `n`, and they increase.
pub proof fn lemma_matching_upto_bounds(servers: Seq<Server>, q: Seq<char>, n: int)
    requires
        0 <= n <= servers.len(),
        servers.len() <= usize::MAX,
    ensures
        forall|k: int|
            0 <= k < matching_upto(servers, q, n).len() ==> #[trigger] matching_upto(servers, q, n)[k]
                < n,
        forall|a: int, b: int|
            0 <= a < b < matching_upto(servers, q, n).len() ==> matching_upto(servers, q, n)[a]
                < matching_upto(servers, q, n)[b],
    decreases n,
{
    if n > 0 {
        lemma_matching_upto_bounds(servers, q, n - 1);
        let prev = matching_upto(servers, q, n - 1);
        let cur = matching_upto(servers, q, n);
        if server_matches(servers[n - 1], q) {
            assert(cur == prev.push((n - 1) as usize));
            assert forall|k: int| 0 <= k < cur.len() implies #[trigger] cur[k] < n by {
                if k < prev.len() {
                    assert(cur[k] == prev[k]);
                }
            }
            assert forall|a: int, b: int| 0 <= a < b < cur.len() implies cur[a] < cur[b] by {
                assert(cur[a] == prev[a]);
                assert(prev[a] < n - 1);
                if b < prev.len() {
                    assert(cur[b] == prev[b]);
                }
            }
        }
    }
}

/// The indices of the servers that match a query are valid indices, in
/// increasing order: filtering never points past the list.
pub proof fn law_matching_indices_valid(servers: Seq<Server>, q: Seq<char>)
    requires
        servers.len() <= usize::MAX,
    ensures
        forall|k: int|
            0 <= k < matching(servers, q).len() ==> #[trigger] matching(servers, q)[k]
                < servers.len(),
        forall|a: int, b: int|
            0 <= a < b < matching(servers, q).len() ==> matching(servers, q)[a] < matching(
                servers,
                q,
            )[b],
{
    lemma_matching_upto_bounds(servers, q, servers.len() as int);
}

/// With an empty query every server matches.
pub proof fn law_empty_query_keeps_all(servers: Seq<Server>, n: int)
    requires
        0 <= n <= servers.len(),
        servers.len() <= usize::MAX,
    ensures
        matching_upto(servers, Seq::empty(), n) == Seq::new(n as nat, |i: int| i as usize),
    decreases n,
{
    if n > 0 {
        law_empty_query_keeps_all(servers, n - 1);
        assert(matching_upto(servers, Seq::empty(), n) =~= Seq::new(n as nat, |i: int| i as usize));
    } else {
        assert(matching_upto(servers, Seq::empty(), n) =~= Seq::new(n as nat, |i: int| i as usize));
    }
}

/// Whether `s` matches the query whose lowercase form is `q_low`.
fn matches_lowered(s: &Server, q_empty: bool, q_low: &Vec<char>, Ghost(q): Ghost<Seq<char>>) -> (b: bool)
    requires
        q_empty == (q.len() == 0),
        q_low@ == lowercase(q),
    ensures
        b == server_matches(*s, q),
{
    if q_empty {
        return true;
    }
    let name = chars_of(to_lowercase(s.name.as_str()).as_str());
    if contains_chars(&name, q_low) {
        return true;
    }
    let host = chars_of(to_lowercase(s.host.as_str()).as_str());
    contains_chars(&host, q_low)
}

/// Indices of the servers that match `query`, in list order.
pub fn filter_servers(servers: &[Server], query: &str) -> (r: Vec<usize>)
    ensures
        r@ == matching(servers@, query@),
{
    let q_low = chars_of(to_lowercase(query).as_str());
    let q_empty = query.is_empty();
    let mut r: Vec<usize> = Vec::new();
    let mut i: usize = 0;
    while i < servers.len()
        invariant
            i <= servers@.len(),
            q_empty == (query@.len() == 0),
            q_low@ == lowercase(query@),
            r@ == matching_upto(servers@, query@, i as int),
        decreases servers@.len() - i,
    {
        if matches_lowered(&servers[i], q_empty, &q_low, Ghost(query@)) {
            r.push(i);
        }
        i = i + 1;
    }
    r
}

/// A search hit over the whole inventory.
#[derive(Clone, Debug)]
pub struct GlobalMatch {
    pub category_index: usize,
    pub server_index: usize,
    pub server: Server,
    pub category_name: String,
}

/// The (category, server) index pairs of the hits in the first `n` categories,
/// category by category, servers in list order.
pub open spec fn global_pairs_upto(cats: Seq<Category>, q: Seq<char>, n: int) -> Seq<(usize, usize)>
    decreases n,
{
    if n <= 0 {
        Seq::empty()
    } else {
        global_pairs_upto(cats, q, n - 1) + matching(cats[n - 1].servers@, q).map_values(
            |j: usize| ((n - 1) as usize, j),
        )
    }
}

/// The (category, server) index pairs of the hits for `q` over all categories;
/// an empty query finds nothing.
pub open spec fn global_pairs(cats: Seq<Category>, q: Seq<char>) -> Seq<(usize, usize)> {
    if q.len() == 0 {
        Seq::empty()
    } else {
        global_pairs_upto(cats, q, cats.len() as int)
    }
}

/// `m` is the hit for the pair `p` of category and server indices.
pub open spec fn is_hit(cats: Seq<Category>, p: (usize, usize), m: GlobalMatch) -> bool {
    &&& m.category_index == p.0
    &&& m.server_index == p.1
    &&& p.0 < cats.len()
    &&& p.1 < cats[p.0 as int].servers@.len()
    &&& m.server == cats[p.0 as int].servers@[p.1 as int]
    &&& m.category_name == cats[p.0 as int].name
}

/// The hits `ms` are exactly those for the pairs `ps`, in order.
pub open spec fn hits_for(cats: Seq<Category>, ps: Seq<(usize, usize)>, ms: Seq<GlobalMatch>) -> bool {
    &&& ms.len() == ps.len()
    &&& forall|k: int| 0 <= k < ms.len() ==> is_hit(cats, ps[k], #[trigger] ms[k])
}

/// Searches every category for servers matching `query`.
pub fn global_search(categories: &[Category], query: &str) -> (r: Vec<GlobalMatch>)
    ensures
        hits_for(categories@, global_pairs(categories@, query@), r@),
{
    let mut r: Vec<GlobalMatch> = Vec::new();
    if query.is_empty() {
        return r;
    }
    let mut i: usize = 0;
    while i < categories.len()
        invariant
            i <= categories@.len(),
            query@.len() > 0,
            hits_for(categories@, global_pairs_upto(categories@, query@, i as int), r@),
        decreases categories@.len() - i,
    {
        let cat = &categories[i];
        let idx = filter_servers(cat.servers.as_slice(), query);
        let ns = cat.servers.len();
        proof {
            law_matching_indices_valid(cat.servers@, query@);
        }
        let ghost before = r@;
        let ghost prev = global_pairs_upto(categories@, query@, i as int);
        let ghost added = matching(cat.servers@, query@).map_values(|j: usize| (i, j));
        assert(global_pairs_upto(categories@, query@, i + 1) == prev + added);
        let mut k: usize = 0;
        while k < idx.len()
            invariant
                i < categories@.len(),
                cat == &categories@[i as int],
                idx@ == matching(cat.servers@, query@),
                forall|t: int| 0 <= t < idx@.len() ==> #[trigger] idx@[t] < cat.servers@.len(),
                k <= idx@.len(),
                added == matching(cat.servers@, query@).map_values(|j: usize| (i, j)),
                hits_for(categories@, prev, before),
                hits_for(categories@, prev + added.take(k as int), r@),
            decreases idx@.len() - k,
        {
            let j = idx[k];
            let m = GlobalMatch {
                category_index: i,
                server_index: j,
                server: cat.servers[j].duplicate(),
                category_name: cat.name.clone(),
            };
            let ghost old_r = r@;
            r.push(m);
            proof {
                assert(added[k as int] == (i, j));
                assert(prev + added.take(k + 1) =~= (prev + added.take(k as int)).push((i, j)));
                assert forall|t: int| 0 <= t < r@.len() implies is_hit(
                    categories@,
                    (prev + added.take(k + 1))[t],
                    #[trigger] r@[t],
                ) by {
                    if t < old_r.len() {
                        assert(r@[t] == old_r[t]);
                        assert((prev + added.take(k + 1))[t] == (prev + added.take(k as int))[t]);
                    }
                }
            }
            k = k + 1;
        }
        assert(added.take(idx@.len() as int) =~= added);
        i = i + 1;
    }
    r
}

} // verus!

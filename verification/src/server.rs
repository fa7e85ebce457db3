//! The route table and the per-connection dispatch decisions. The table
//! registers (method, pattern) entries in order; `dispatch_plan` turns one
//! request's method and raw path into the exact set of entries to invoke,
//! with their bound parameters. The caller runs the accept loop, invokes the
//! handler of each matched entry, and falls back to its default handler — or
//! to `default_response` — when nothing matched.

use vstd::prelude::*;
use vstd::string::*;

use crate::http_structs::{parse_query_params, spec_query_params, HttpMethod, HttpResponse};
use crate::router::{match_pattern, match_segments};
use crate::status::HttpStatus;
use crate::strutil::{find_char, find_char_spec, kv_view, lemma_find_char_spec, spec_segments};

verus! {

/// The view of registered entries: each a method and a pattern.
pub open spec fn routes_view(v: Seq<(HttpMethod, String)>) -> Seq<(HttpMethod, Seq<char>)> {
    Seq::new(v.len(), |i: int| (v[i].0, v[i].1@))
}

/// The view of computed matches: each an entry index with its bound route
/// parameters.
pub open spec fn matches_view(v: Seq<(usize, Vec<(String, String)>)>) -> Seq<
    (int, Seq<(Seq<char>, Seq<char>)>),
> {
    Seq::new(v.len(), |i: int| (v[i].0 as int, kv_view(v[i].1@)))
}

/// The ordered registry of (method, path pattern) entries. Handlers are kept
/// by the caller, parallel to the entries, and invoked by entry index.
pub struct RouteTable {
    /// The registered entries, in registration order.
    pub entries: Vec<(HttpMethod, String)>,
}

impl RouteTable {
    /// An empty route table.
    pub fn new() -> (r: Self)
        ensures
            r.entries@.len() == 0,
    {
        Self { entries: Vec::new() }
    }

    /// Registers a GET route for the given path pattern.
    pub fn get(&mut self, path: String)
        ensures
            final(self).entries@ == old(self).entries@.push((HttpMethod::GET, path)),
    {
        self.entries.push((HttpMethod::GET, path));
    }

    /// Registers a POST route for the given path pattern.
    pub fn post(&mut self, path: String)
        ensures
            final(self).entries@ == old(self).entries@.push((HttpMethod::POST, path)),
    {
        self.entries.push((HttpMethod::POST, path));
    }

    /// Registers a PUT route for the given path pattern.
    pub fn put(&mut self, path: String)
        ensures
            final(self).entries@ == old(self).entries@.push((HttpMethod::PUT, path)),
    {
        self.entries.push((HttpMethod::PUT, path));
    }

    /// Registers a DELETE route for the given path pattern.
    pub fn delete(&mut self, path: String)
        ensures
            final(self).entries@ == old(self).entries@.push((HttpMethod::DELETE, path)),
    {
        self.entries.push((HttpMethod::DELETE, path));
    }
}

/// The route portion of a raw path: everything before the first '?'.
pub open spec fn route_part(p: Seq<char>) -> Seq<char> {
    let i = find_char_spec(p, '?');
    if 0 <= i < p.len() {
        p.subrange(0, i)
    } else {
        p
    }
}

/// The query portion of a raw path: everything after the first '?', when
/// one is present.
pub open spec fn query_part(p: Seq<char>) -> Option<Seq<char>> {
    let i = find_char_spec(p, '?');
    if 0 <= i < p.len() {
        Some(p.subrange(i + 1, p.len() as int))
    } else {
        None
    }
}

/// Whether one entry matches a request: its method must equal the request
/// method and its pattern must match the route path; when it does, these are
/// the bound route parameters.
pub open spec fn entry_match(
    e: (HttpMethod, Seq<char>),
    m: HttpMethod,
    path: Seq<char>,
) -> Option<Seq<(Seq<char>, Seq<char>)>> {
    if e.0 == m {
        match_segments(spec_segments(e.1), spec_segments(path))
    } else {
        None
    }
}

/// The matching entries from index `i` on, in registration order, each with
/// its bound route parameters.
pub open spec fn matches_spec(
    entries: Seq<(HttpMethod, Seq<char>)>,
    m: HttpMethod,
    path: Seq<char>,
    i: int,
) -> Seq<(int, Seq<(Seq<char>, Seq<char>)>)>
    decreases entries.len() - i,
{
    if i < 0 || i >= entries.len() {
        Seq::empty()
    } else {
        let rest = matches_spec(entries, m, path, i + 1);
        match entry_match(entries[i], m, path) {
            Some(ps) => seq![(i, ps)] + rest,
            None => rest,
        }
    }
}

/// The match list is complete: it is empty exactly when no registered entry
/// (from index `i` on) matches the request, so the default handler runs if
/// and only if no entry satisfies both the method and the whole pattern.
pub proof fn lemma_matches_complete(
    entries: Seq<(HttpMethod, Seq<char>)>,
    m: HttpMethod,
    path: Seq<char>,
    i: int,
)
    requires
        0 <= i <= entries.len(),
    ensures
        matches_spec(entries, m, path, i).len() == 0 <==> (forall|j: int|
            i <= j < entries.len() ==> entry_match(entries[j], m, path) is None),
    decreases entries.len() - i,
{
    if i < entries.len() {
        lemma_matches_complete(entries, m, path, i + 1);
    }
}

/// The decisions for one request: the path split from its query string, the
/// parsed query parameters, and every matching entry in registration order
/// with its bound route parameters.
pub struct DispatchPlan {
    /// The path with any query substring removed.
    pub route_path: String,
    /// The query parameters, when the raw path carried a query string.
    pub query_params: Option<Vec<(String, String)>>,
    /// The indices of the matching entries, in registration order, each with
    /// the route parameters its pattern bound.
    pub matched: Vec<(usize, Vec<(String, String)>)>,
}

/// Plans the dispatch of one request: splits the raw path at its first '?',
/// parses the query portion, and matches every registered entry against the
/// request method and route path. An entry is invoked only when both its
/// method and its whole pattern match; when several entries match, all of
/// them are listed and all execute; when none matches, the caller invokes
/// its default handler.
pub fn dispatch_plan(routes: &RouteTable, method: &HttpMethod, raw_path: &str) -> (r: DispatchPlan)
    ensures
        r.route_path@ == route_part(raw_path@),
        (match query_part(raw_path@) {
            Some(q) => match r.query_params {
                Some(qp) => kv_view(qp@) == spec_query_params(q),
                None => false,
            },
            None => r.query_params is None,
        }),
        matches_view(r.matched@) == matches_spec(
            routes_view(routes.entries@),
            *method,
            route_part(raw_path@),
            0,
        ),
{
    let n_raw = raw_path.unicode_len();
    let (route_path, query_params): (String, Option<Vec<(String, String)>>) = match find_char(
        raw_path,
        '?',
    ) {
        Some(i) => {
            proof {
                lemma_find_char_spec(raw_path@, '?');
            }
            let rp = raw_path.substring_char(0, i).to_owned();
            let q = raw_path.substring_char(i + 1, n_raw);
            (rp, Some(parse_query_params(q)))
        },
        None => (raw_path.to_owned(), None),
    };
    let n = routes.entries.len();
    let mut matched: Vec<(usize, Vec<(String, String)>)> = Vec::new();
    let mut i: usize = 0;
    let ghost evs = routes_view(routes.entries@);
    let ghost rpv = route_part(raw_path@);
    proof {
        assert(matches_view(matched@) =~= Seq::<(int, Seq<(Seq<char>, Seq<char>)>)>::empty());
        assert(Seq::<(int, Seq<(Seq<char>, Seq<char>)>)>::empty() + matches_spec(evs, *method, rpv, 0)
            =~= matches_spec(evs, *method, rpv, 0));
    }
    while i < n
        invariant
            n == routes.entries@.len(),
            0 <= i <= n,
            evs == routes_view(routes.entries@),
            rpv == route_part(raw_path@),
            route_path@ == rpv,
            matches_view(matched@) + matches_spec(evs, *method, rpv, i as int) == matches_spec(
                evs,
                *method,
                rpv,
                0,
            ),
        decreases n - i,
    {
        proof {
            assert(evs[i as int] == (routes.entries@[i as int].0, routes.entries@[i as int].1@));
        }
        let e = &routes.entries[i];
        if e.0 == *method {
            match match_pattern(e.1.as_str(), route_path.as_str()) {
                Some(params) => {
                    let ghost m0 = matched@;
                    matched.push((i, params));
                    proof {
                        assert(matches_view(matched@) =~= matches_view(m0) + seq![
                            (i as int, entry_match(evs[i as int], *method, rpv)->Some_0),
                        ]);
                        assert(matches_view(matched@) + matches_spec(evs, *method, rpv, i + 1)
                            =~= matches_view(m0) + matches_spec(evs, *method, rpv, i as int));
                    }
                },
                None => {
                    proof {
                        assert(entry_match(evs[i as int], *method, rpv) is None);
                    }
                },
            }
        } else {
            proof {
                assert(entry_match(evs[i as int], *method, rpv) is None);
            }
        }
        i = i + 1;
    }
    proof {
        assert(matches_view(matched@) + Seq::<(int, Seq<(Seq<char>, Seq<char>)>)>::empty()
            =~= matches_view(matched@));
    }
    DispatchPlan { route_path, query_params, matched }
}

/// The response of the built-in default handler: 501 Not Implemented, no
/// extra headers, no body, over HTTP/1.1. The caller uses it when no route
/// matched and no default handler was configured.
pub fn default_response() -> (r: HttpResponse)
    ensures
        r.status == HttpStatus::NotImplemented,
        r.http_ver@ == "1.1"@,
        r.extra_headers is None,
        r.data is None,
{
    HttpResponse::new("1.1".to_owned(), HttpStatus::NotImplemented, None, None)
}

/// Relies on num_cpus::get: the number of logical CPUs available to the
/// current process, which is always at least 1.
#[verifier::external_body]
fn available_cpus() -> (r: usize)
    ensures
        r >= 1,
{
    num_cpus::get()
}

/// The pool size derived from a logical CPU count: three workers per CPU,
/// clamped into `u32` on the way.
pub open spec fn pool_size_spec(cpus: int) -> int {
    let c = if cpus <= u32::MAX as int {
        cpus
    } else {
        u32::MAX as int
    };
    if 3 * c <= u32::MAX as int {
        3 * c
    } else {
        u32::MAX as int
    }
}

/// The worker-pool size for a machine with `cpus` logical CPUs: three
/// workers per CPU, saturating at `u32::MAX`.
pub fn pool_size(cpus: usize) -> (r: u32)
    ensures
        r as int == pool_size_spec(cpus as int),
{
    let c32: u32 = if cpus > u32::MAX as usize {
        u32::MAX
    } else {
        cpus as u32
    };
    if c32 > u32::MAX / 3 {
        u32::MAX
    } else {
        c32 * 3
    }
}

/// The worker-pool size for a requested worker count: an explicit request is
/// used as it is; without one the pool is sized by `pool_size` from the host
/// core count, which is at least 1, so the result is at least 3.
pub fn resolve_thread_count(requested: Option<u32>) -> (r: u32)
    ensures
        match requested {
            Some(t) => r == t,
            None => r >= 3,
        },
{
    match requested {
        Some(t) => t,
        None => pool_size(available_cpus()),
    }
}

} // verus!

//! Verified request counters.
//!
//! The relay counts requests by method, path and status, DNS lookups by type
//! and outcome, and redirects by outcome.  The counters are modeled as an
//! injected recording capability: a [`Metrics`] value is passed to the code
//! that observes events, and each family of counters is specified by the
//! per-key count it reports.  Exposition of the counters is outside the
//! library.

use crate::text::str_eq;
use vstd::prelude::*;

verus! {

/// The relay's counters.
pub struct Metrics {
    requests: Vec<(String, String, u16)>,
    dns_lookups: Vec<(String, String)>,
    redirects: Vec<String>,
}

/// How many entries of `s` carry this method, path and status.
spec fn count_requests_in(
    s: Seq<(Seq<char>, Seq<char>, u16)>,
    method: Seq<char>,
    path: Seq<char>,
    status: u16,
) -> nat {
    s.filter(|e: (Seq<char>, Seq<char>, u16)| e.0 == method && e.1 == path && e.2 == status).len()
}

/// How many entries of `s` carry this lookup type and outcome.
spec fn count_dns_lookups_in(
    s: Seq<(Seq<char>, Seq<char>)>,
    lookup_type: Seq<char>,
    status: Seq<char>,
) -> nat {
    s.filter(|e: (Seq<char>, Seq<char>)| e.0 == lookup_type && e.1 == status).len()
}

/// How many entries of `s` carry this outcome.
spec fn count_redirects_in(s: Seq<Seq<char>>, status: Seq<char>) -> nat {
    s.filter(|e: Seq<char>| e == status).len()
}

impl Metrics {
    /// How often a request with this method, path and status was counted.
    pub closed spec fn spec_requests_count(
        self,
        method: Seq<char>,
        path: Seq<char>,
        status: u16,
    ) -> nat {
        count_requests_in(self.requests.deep_view(), method, path, status)
    }

    /// How often a DNS lookup with this type and outcome was counted.
    pub closed spec fn spec_dns_lookups_count(self, lookup_type: Seq<char>, status: Seq<char>) -> nat {
        count_dns_lookups_in(self.dns_lookups.deep_view(), lookup_type, status)
    }

    /// How often a redirect with this outcome was counted.
    pub closed spec fn spec_redirects_count(self, status: Seq<char>) -> nat {
        count_redirects_in(self.redirects.deep_view(), status)
    }
}

/// Fresh counters, all zero.
pub fn init_metrics() -> (m: Metrics)
    ensures
        forall|method: Seq<char>, path: Seq<char>, status: u16|
            #[trigger] m.spec_requests_count(method, path, status) == 0,
        forall|lookup_type: Seq<char>, status: Seq<char>|
            #[trigger] m.spec_dns_lookups_count(lookup_type, status) == 0,
        forall|status: Seq<char>| #[trigger] m.spec_redirects_count(status) == 0,
{
    let m = Metrics { requests: Vec::new(), dns_lookups: Vec::new(), redirects: Vec::new() };
    proof {
        reveal(Seq::filter);
        assert(m.requests.deep_view() =~= Seq::<(Seq<char>, Seq<char>, u16)>::empty());
        assert(m.dns_lookups.deep_view() =~= Seq::<(Seq<char>, Seq<char>)>::empty());
        assert(m.redirects.deep_view() =~= Seq::<Seq<char>>::empty());
    }
    m
}

/// Count one request with its method, path and status.
pub fn inc_requests(metrics: &mut Metrics, method: &str, path: &str, status: u16)
    ensures
        final(metrics).spec_requests_count(method@, path@, status) == old(metrics).spec_requests_count(method@, path@, status) + 1,
        forall|m2: Seq<char>, p2: Seq<char>, s2: u16|
            !(m2 == method@ && p2 == path@ && s2 == status) ==> #[trigger] final(metrics).spec_requests_count(m2, p2, s2) == old(metrics).spec_requests_count(m2, p2, s2),
        forall|t2: Seq<char>, s2: Seq<char>|
            #[trigger] final(metrics).spec_dns_lookups_count(t2, s2) == old(metrics).spec_dns_lookups_count(t2, s2),
        forall|s2: Seq<char>|
            #[trigger] final(metrics).spec_redirects_count(s2) == old(metrics).spec_redirects_count(s2),
{
    let ghost old_s = metrics.requests.deep_view();
    metrics.requests.push((method.to_owned(), path.to_owned(), status));
    proof {
        let new_s = metrics.requests.deep_view();
        let entry = (method@, path@, status);
        reveal(Seq::filter);
        assert(new_s =~= old_s.push(entry));
        assert(new_s.drop_last() =~= old_s);
        assert forall|m2: Seq<char>, p2: Seq<char>, s2: u16|
            !(m2 == method@ && p2 == path@ && s2 == status) implies #[trigger] metrics
            .spec_requests_count(m2, p2, s2) == old(metrics).spec_requests_count(m2, p2, s2) by {
            reveal(Seq::filter);
        }
    }
}

/// Count one DNS lookup with its type and outcome.
pub fn inc_dns_lookups(metrics: &mut Metrics, lookup_type: &str, status: &str)
    ensures
        final(metrics).spec_dns_lookups_count(lookup_type@, status@) == old(metrics).spec_dns_lookups_count(lookup_type@, status@) + 1,
        forall|t2: Seq<char>, s2: Seq<char>|
            !(t2 == lookup_type@ && s2 == status@) ==> #[trigger] final(metrics).spec_dns_lookups_count(t2, s2) == old(metrics).spec_dns_lookups_count(t2, s2),
        forall|m2: Seq<char>, p2: Seq<char>, s2: u16|
            #[trigger] final(metrics).spec_requests_count(m2, p2, s2) == old(metrics).spec_requests_count(m2, p2, s2),
        forall|s2: Seq<char>|
            #[trigger] final(metrics).spec_redirects_count(s2) == old(metrics).spec_redirects_count(s2),
{
    let ghost old_s = metrics.dns_lookups.deep_view();
    metrics.dns_lookups.push((lookup_type.to_owned(), status.to_owned()));
    proof {
        let new_s = metrics.dns_lookups.deep_view();
        let entry = (lookup_type@, status@);
        reveal(Seq::filter);
        assert(new_s =~= old_s.push(entry));
        assert(new_s.drop_last() =~= old_s);
        assert forall|t2: Seq<char>, s2: Seq<char>|
            !(t2 == lookup_type@ && s2 == status@) implies #[trigger] metrics.spec_dns_lookups_count(
            t2,
            s2,
        ) == old(metrics).spec_dns_lookups_count(t2, s2) by {
            reveal(Seq::filter);
        }
    }
}

/// Count one redirect with its outcome.
pub fn inc_redirects(metrics: &mut Metrics, status: &str)
    ensures
        final(metrics).spec_redirects_count(status@) == old(metrics).spec_redirects_count(status@)
            + 1,
        forall|s2: Seq<char>|
            s2 != status@ ==> #[trigger] final(metrics).spec_redirects_count(s2) == old(metrics).spec_redirects_count(s2),
        forall|m2: Seq<char>, p2: Seq<char>, s2: u16|
            #[trigger] final(metrics).spec_requests_count(m2, p2, s2) == old(metrics).spec_requests_count(m2, p2, s2),
        forall|t2: Seq<char>, s2: Seq<char>|
            #[trigger] final(metrics).spec_dns_lookups_count(t2, s2) == old(metrics).spec_dns_lookups_count(t2, s2),
{
    let ghost old_s = metrics.redirects.deep_view();
    metrics.redirects.push(status.to_owned());
    proof {
        let new_s = metrics.redirects.deep_view();
        reveal(Seq::filter);
        assert(new_s =~= old_s.push(status@));
        assert(new_s.drop_last() =~= old_s);
        assert forall|s2: Seq<char>| s2 != status@ implies #[trigger] metrics.spec_redirects_count(
            s2,
        ) == old(metrics).spec_redirects_count(s2) by {
            reveal(Seq::filter);
        }
    }
}

/// Read the count of requests with this method, path and status.
pub fn requests_count(metrics: &Metrics, method: &str, path: &str, status: u16) -> (c: usize)
    ensures
        c == metrics.spec_requests_count(method@, path@, status),
{
    let n = metrics.requests.len();
    let mut c: usize = 0;
    let mut i: usize = 0;
    while i < n
        invariant
            i <= n,
            n == metrics.requests.len(),
            c <= i,
            c == count_requests_in(
                metrics.requests.deep_view().take(i as int),
                method@,
                path@,
                status,
            ),
        decreases n - i,
    {
        let e = &metrics.requests[i];
        let ghost prefix = metrics.requests.deep_view().take(i as int);
        let ghost next = metrics.requests.deep_view().take(i + 1);
        proof {
            reveal(Seq::filter);
            assert(next.drop_last() =~= prefix);
            assert(next.last() == metrics.requests.deep_view()[i as int]);
        }
        if str_eq(e.0.as_str(), method) && str_eq(e.1.as_str(), path) && e.2 == status {
            c = c + 1;
        }
        i = i + 1;
    }
    proof {
        assert(metrics.requests.deep_view().take(n as int) =~= metrics.requests.deep_view());
    }
    c
}

/// Read the count of DNS lookups with this type and outcome.
pub fn dns_lookups_count(metrics: &Metrics, lookup_type: &str, status: &str) -> (c: usize)
    ensures
        c == metrics.spec_dns_lookups_count(lookup_type@, status@),
{
    let n = metrics.dns_lookups.len();
    let mut c: usize = 0;
    let mut i: usize = 0;
    while i < n
        invariant
            i <= n,
            n == metrics.dns_lookups.len(),
            c <= i,
            c == count_dns_lookups_in(
                metrics.dns_lookups.deep_view().take(i as int),
                lookup_type@,
                status@,
            ),
        decreases n - i,
    {
        let e = &metrics.dns_lookups[i];
        let ghost prefix = metrics.dns_lookups.deep_view().take(i as int);
        let ghost next = metrics.dns_lookups.deep_view().take(i + 1);
        proof {
            reveal(Seq::filter);
            assert(next.drop_last() =~= prefix);
            assert(next.last() == metrics.dns_lookups.deep_view()[i as int]);
        }
        if str_eq(e.0.as_str(), lookup_type) && str_eq(e.1.as_str(), status) {
            c = c + 1;
        }
        i = i + 1;
    }
    proof {
        assert(metrics.dns_lookups.deep_view().take(n as int) =~= metrics.dns_lookups.deep_view());
    }
    c
}

/// Read the count of redirects with this outcome.
pub fn redirects_count(metrics: &Metrics, status: &str) -> (c: usize)
    ensures
        c == metrics.spec_redirects_count(status@),
{
    let n = metrics.redirects.len();
    let mut c: usize = 0;
    let mut i: usize = 0;
    while i < n
        invariant
            i <= n,
            n == metrics.redirects.len(),
            c <= i,
            c == count_redirects_in(metrics.redirects.deep_view().take(i as int), status@),
        decreases n - i,
    {
        let e = &metrics.redirects[i];
        let ghost prefix = metrics.redirects.deep_view().take(i as int);
        let ghost next = metrics.redirects.deep_view().take(i + 1);
        proof {
            reveal(Seq::filter);
            assert(next.drop_last() =~= prefix);
            assert(next.last() == metrics.redirects.deep_view()[i as int]);
        }
        if str_eq(e.as_str(), status) {
            c = c + 1;
        }
        i = i + 1;
    }
    proof {
        assert(metrics.redirects.deep_view().take(n as int) =~= metrics.redirects.deep_view());
    }
    c
}

} // verus!

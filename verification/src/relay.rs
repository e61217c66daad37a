//! Request-forwarding decisions.
//!
//! Given a relay mode and the outcome of resolution, the forwarder either
//! answers with a temporary redirect to the target URL, streams the request
//! through to the target, or synthesizes an error answer.  The decisions
//! themselves, the hop-by-hop header-hygiene rules a proxy must apply, the
//! outbound method mapping, and upgrade detection are all verified here; the
//! HTTP transport that carries them out lives outside the library.

use crate::dns::{view_domain_result, DnsError, DnsErrorView};
use crate::text::{contains_seq, str_contains, str_eq};
use vstd::prelude::*;

verus! {

/// How the relay answers a resolvable request: a temporary redirect to the
/// target, or a streaming proxy hop.
#[derive(Clone, Copy, PartialEq, Eq, Structural, Debug)]
pub enum RelayMode {
    Redirect,
    Proxy,
}

/// The mode a setting string selects: `"proxy"` selects proxying; anything
/// else, including `"redirect"` and an absent setting, the default redirect.
pub open spec fn spec_mode_of(setting: Option<Seq<char>>) -> RelayMode {
    match setting {
        Some(s) => if s == "proxy"@ {
            RelayMode::Proxy
        } else {
            RelayMode::Redirect
        },
        None => RelayMode::Redirect,
    }
}

impl RelayMode {
    /// Parse the relay-mode setting.
    pub fn from_setting(setting: Option<&str>) -> (r: RelayMode)
        ensures
            r == spec_mode_of(setting.deep_view()),
    {
        match setting {
            Some(s) => if str_eq(s, "proxy") {
                RelayMode::Proxy
            } else {
                RelayMode::Redirect
            },
            None => RelayMode::Redirect,
        }
    }
}

/// The lowercase image of a character sequence, as Unicode case mapping
/// defines it.
pub uninterp spec fn lower_of(s: Seq<char>) -> Seq<char>;

/// Relies on str::to_lowercase: the result depends on the characters alone.
#[verifier::external_body]
fn to_lowercase_str(s: &str) -> (r: String)
    ensures
        r@ == lower_of(s@),
{
    s.to_lowercase()
}

/// Whether a `connection` header value announces a protocol upgrade: its
/// lowercase image holds the token `"upgrade"`.
pub open spec fn spec_is_upgrade(connection: Option<Seq<char>>) -> bool {
    match connection {
        Some(v) => contains_seq(lower_of(v), "upgrade"@),
        None => false,
    }
}

/// Inspect an inbound `connection` header value for a case-insensitive
/// `"upgrade"` token.
pub fn is_upgrade_request(connection: Option<&str>) -> (r: bool)
    ensures
        r == spec_is_upgrade(connection.deep_view()),
{
    match connection {
        Some(v) => {
            let lowered = to_lowercase_str(v);
            str_contains(lowered.as_str(), "upgrade")
        },
        None => false,
    }
}

/// The status with which a proxy-mode upgrade request is refused, if it is:
/// the streaming client cannot tunnel protocol upgrades, so proxy mode
/// answers such a request with 501 before anything is sent outbound.
/// Redirect mode is unaffected.
pub open spec fn spec_upgrade_rejection(mode: RelayMode, connection: Option<Seq<char>>) -> Option<
    u16,
> {
    if mode is Proxy && spec_is_upgrade(connection) {
        Some(501u16)
    } else {
        None
    }
}

/// Decide whether the request must be refused as an unsupported upgrade.
pub fn upgrade_rejection(mode: RelayMode, connection: Option<&str>) -> (r: Option<u16>)
    ensures
        r == spec_upgrade_rejection(mode, connection.deep_view()),
{
    if mode == RelayMode::Proxy && is_upgrade_request(connection) {
        Some(501)
    } else {
        None
    }
}

/// The hop-by-hop names never forwarded outbound, compared on the lowercase
/// image of the header name.
pub open spec fn spec_request_header_blocked(lower: Seq<char>) -> bool {
    ||| lower == "transfer-encoding"@
    ||| lower == "content-length"@
    ||| lower == "te"@
    ||| lower == "trailer"@
    ||| lower == "proxy-connection"@
    ||| lower == "keep-alive"@
}

/// Whether an inbound header passes to the outbound request.
pub open spec fn spec_forward_request_header(name: Seq<char>) -> bool {
    !spec_request_header_blocked(lower_of(name))
}

/// Decide whether an inbound header is forwarded outbound.
pub fn should_forward_request_header(name: &str) -> (r: bool)
    ensures
        r == spec_forward_request_header(name@),
{
    let lowered = to_lowercase_str(name);
    let l = lowered.as_str();
    !(str_eq(l, "transfer-encoding") || str_eq(l, "content-length") || str_eq(l, "te") || str_eq(
        l,
        "trailer",
    ) || str_eq(l, "proxy-connection") || str_eq(l, "keep-alive"))
}

/// The transport-framing names never copied back from the target's answer,
/// compared on the lowercase image of the header name.
pub open spec fn spec_response_header_blocked(lower: Seq<char>) -> bool {
    ||| lower == "connection"@
    ||| lower == "transfer-encoding"@
    ||| lower == "content-encoding"@
    ||| lower == "content-length"@
}

/// Whether a header of the target's answer passes back to the caller.
pub open spec fn spec_forward_response_header(name: Seq<char>) -> bool {
    !spec_response_header_blocked(lower_of(name))
}

/// Decide whether a header of the target's answer is copied back.
pub fn should_forward_response_header(name: &str) -> (r: bool)
    ensures
        r == spec_forward_response_header(name@),
{
    let lowered = to_lowercase_str(name);
    let l = lowered.as_str();
    !(str_eq(l, "connection") || str_eq(l, "transfer-encoding") || str_eq(l, "content-encoding")
        || str_eq(l, "content-length"))
}

/// The outbound header set: the inbound headers, in order, with the
/// hop-by-hop names removed and every other header unchanged.
pub open spec fn spec_filter_request_headers(headers: Seq<(Seq<char>, Seq<char>)>) -> Seq<
    (Seq<char>, Seq<char>),
> {
    headers.filter(|h: (Seq<char>, Seq<char>)| spec_forward_request_header(h.0))
}

/// The answer header set: the target's headers, in order, with the
/// transport-framing names removed and every other header unchanged.
pub open spec fn spec_filter_response_headers(headers: Seq<(Seq<char>, Seq<char>)>) -> Seq<
    (Seq<char>, Seq<char>),
> {
    headers.filter(|h: (Seq<char>, Seq<char>)| spec_forward_response_header(h.0))
}

/// Apply the outbound header-hygiene rule to a header list.
pub fn filter_request_headers(headers: &Vec<(String, String)>) -> (r: Vec<(String, String)>)
    ensures
        r.deep_view() == spec_filter_request_headers(headers.deep_view()),
{
    let ghost pred = |h: (Seq<char>, Seq<char>)| spec_forward_request_header(h.0);
    let mut out: Vec<(String, String)> = Vec::new();
    let n = headers.len();
    let mut i: usize = 0;
    while i < n
        invariant
            i <= n,
            n == headers.len(),
            out.deep_view() == headers.deep_view().take(i as int).filter(pred),
            pred == (|h: (Seq<char>, Seq<char>)| spec_forward_request_header(h.0)),
        decreases n - i,
    {
        let h = &headers[i];
        let ghost prefix = headers.deep_view().take(i as int);
        let ghost next = headers.deep_view().take(i + 1);
        proof {
            reveal(Seq::filter);
            assert(next.drop_last() =~= prefix);
            assert(next.last() == headers.deep_view()[i as int]);
        }
        if should_forward_request_header(h.0.as_str()) {
            let entry = (h.0.clone(), h.1.clone());
            out.push(entry);
            proof {
                assert(out.deep_view() =~= prefix.filter(pred).push(
                    headers.deep_view()[i as int],
                ));
            }
        }
        i = i + 1;
    }
    proof {
        assert(headers.deep_view().take(n as int) =~= headers.deep_view());
    }
    out
}

/// Apply the answer header-hygiene rule to a header list.
pub fn filter_response_headers(headers: &Vec<(String, String)>) -> (r: Vec<(String, String)>)
    ensures
        r.deep_view() == spec_filter_response_headers(headers.deep_view()),
{
    let ghost pred = |h: (Seq<char>, Seq<char>)| spec_forward_response_header(h.0);
    let mut out: Vec<(String, String)> = Vec::new();
    let n = headers.len();
    let mut i: usize = 0;
    while i < n
        invariant
            i <= n,
            n == headers.len(),
            out.deep_view() == headers.deep_view().take(i as int).filter(pred),
            pred == (|h: (Seq<char>, Seq<char>)| spec_forward_response_header(h.0)),
        decreases n - i,
    {
        let h = &headers[i];
        let ghost prefix = headers.deep_view().take(i as int);
        let ghost next = headers.deep_view().take(i + 1);
        proof {
            reveal(Seq::filter);
            assert(next.drop_last() =~= prefix);
            assert(next.last() == headers.deep_view()[i as int]);
        }
        if should_forward_response_header(h.0.as_str()) {
            let entry = (h.0.clone(), h.1.clone());
            out.push(entry);
            proof {
                assert(out.deep_view() =~= prefix.filter(pred).push(
                    headers.deep_view()[i as int],
                ));
            }
        }
        i = i + 1;
    }
    proof {
        assert(headers.deep_view().take(n as int) =~= headers.deep_view());
    }
    out
}

/// The methods forwarded as themselves; anything else is proxied as a GET.
pub open spec fn spec_known_method(m: Seq<char>) -> bool {
    ||| m == "GET"@
    ||| m == "POST"@
    ||| m == "PUT"@
    ||| m == "DELETE"@
    ||| m == "HEAD"@
    ||| m == "OPTIONS"@
    ||| m == "PATCH"@
}

/// The outbound method for an inbound one.
pub open spec fn spec_map_method(m: Seq<char>) -> Seq<char> {
    if spec_known_method(m) {
        m
    } else {
        "GET"@
    }
}

/// Map the inbound method to the outbound one.
pub fn map_method(method: &str) -> (r: String)
    ensures
        r@ == spec_map_method(method@),
{
    if str_eq(method, "GET") || str_eq(method, "POST") || str_eq(method, "PUT") || str_eq(
        method,
        "DELETE",
    ) || str_eq(method, "HEAD") || str_eq(method, "OPTIONS") || str_eq(method, "PATCH") {
        method.to_owned()
    } else {
        String::from_str("GET")
    }
}

/// The terminal answer the relay chose for a request.
pub enum RelayPlan {
    /// Answer with a temporary redirect to the target URL.
    Redirect { status: u16, location: String },
    /// Stream the request to the target URL and relay its answer.
    Proxy { target: String },
    /// Resolution failed: answer with a bad-gateway error.
    Fail { status: u16, error: DnsError },
}

/// Spec-level image of a [`RelayPlan`].
pub enum RelayPlanView {
    Redirect { status: u16, location: Seq<char> },
    Proxy { target: Seq<char> },
    Fail { status: u16, error: DnsErrorView },
}

impl View for RelayPlan {
    type V = RelayPlanView;

    open spec fn view(&self) -> RelayPlanView {
        match self {
            RelayPlan::Redirect { status, location } => RelayPlanView::Redirect {
                status: *status,
                location: location@,
            },
            RelayPlan::Proxy { target } => RelayPlanView::Proxy { target: target@ },
            RelayPlan::Fail { status, error } => RelayPlanView::Fail {
                status: *status,
                error: error@,
            },
        }
    }
}

/// The plan a mode and a resolution outcome select: a failed resolution is
/// always a 502 answer; a resolved target is a 307 redirect in redirect mode
/// and a proxy hop in proxy mode.
pub open spec fn spec_plan_relay(mode: RelayMode, resolution: Result<Seq<char>, DnsErrorView>) -> RelayPlanView {
    match resolution {
        Err(e) => RelayPlanView::Fail { status: 502, error: e },
        Ok(url) => match mode {
            RelayMode::Redirect => RelayPlanView::Redirect { status: 307, location: url },
            RelayMode::Proxy => RelayPlanView::Proxy { target: url },
        },
    }
}

/// Choose the relay's answer for a resolution outcome.
pub fn plan_relay(mode: RelayMode, resolution: Result<String, DnsError>) -> (p: RelayPlan)
    ensures
        p@ == spec_plan_relay(mode, view_domain_result(resolution)),
{
    match resolution {
        Err(e) => RelayPlan::Fail { status: 502, error: e },
        Ok(url) => match mode {
            RelayMode::Redirect => RelayPlan::Redirect { status: 307, location: url },
            RelayMode::Proxy => RelayPlan::Proxy { target: url },
        },
    }
}

/// In redirect mode every resolved target is answered the same way: a
/// temporary redirect with status 307 whose location is the target URL.
pub proof fn lemma_redirect_mode_plan(url: Seq<char>)
    ensures
        spec_plan_relay(RelayMode::Redirect, Ok(url)) == (RelayPlanView::Redirect {
            status: 307,
            location: url,
        }),
{
}

/// Proxy mode refuses a request announcing an upgrade with status 501, while
/// redirect mode never refuses one.
pub proof fn lemma_upgrade_refused(connection: Option<Seq<char>>)
    ensures
        spec_is_upgrade(connection) ==> spec_upgrade_rejection(RelayMode::Proxy, connection)
            == Some(501u16),
        spec_upgrade_rejection(RelayMode::Redirect, connection) is None,
{
}

/// Header hygiene, outbound: no header whose name the deny list holds
/// survives the filter, and every other header passes through unchanged.
pub proof fn lemma_request_header_hygiene(headers: Seq<(Seq<char>, Seq<char>)>)
    ensures
        forall|i: int|
            0 <= i < spec_filter_request_headers(headers).len()
                ==> spec_forward_request_header(
                #[trigger] spec_filter_request_headers(headers)[i].0,
            ),
        forall|i: int|
            0 <= i < headers.len() && spec_forward_request_header((#[trigger] headers[i]).0)
                ==> spec_filter_request_headers(headers).contains(headers[i]),
{
    broadcast use vstd::seq_lib::group_filter_ensures;

}

/// Header hygiene, on the way back: no transport-framing header of the
/// target's answer survives the filter, and every other header passes
/// through unchanged.
pub proof fn lemma_response_header_hygiene(headers: Seq<(Seq<char>, Seq<char>)>)
    ensures
        forall|i: int|
            0 <= i < spec_filter_response_headers(headers).len()
                ==> spec_forward_response_header(
                #[trigger] spec_filter_response_headers(headers)[i].0,
            ),
        forall|i: int|
            0 <= i < headers.len() && spec_forward_response_header((#[trigger] headers[i]).0)
                ==> spec_filter_response_headers(headers).contains(headers[i]),
{
    broadcast use vstd::seq_lib::group_filter_ensures;

}

/// The request path an ACME challenge token selects.
pub fn acme_challenge_path(token: &str) -> (r: String)
    ensures
        r@ == "/.well-known/acme-challenge/"@ + token@,
{
    let mut s = String::from_str("/.well-known/acme-challenge/");
    s.append(token);
    s
}

} // verus!

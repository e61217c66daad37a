//! DNS-based target resolution.
//!
//! A custom domain publishes two records: a TXT record
//! `_dstack-app-address.{domain}` holding `"{app-id}:{port}"`, and a CNAME
//! whose value names the gateway environment.  The resolver combines the two
//! lookup outcomes, under a configurable allow pattern and fallback policy,
//! into a single target URL `https://{app-id}.{routing-domain}{path}`.
//!
//! The DNS queries themselves happen outside the library; their outcomes are
//! handed in as [`TxtOutcome`] and [`CnameOutcome`] values, and every decision
//! made from them is verified.

use vstd::prelude::*;

verus! {

/// Errors from DNS-based target resolution.
#[derive(Debug)]
pub enum DnsError {
    /// The DNS transport failed; carries the transport's error text.
    LookupFailed(String),
    /// A lookup succeeded but returned no usable record; carries the domain in question.
    NoRecordsFound(String),
    /// A record was found but does not follow the published contract; carries the offending value.
    MalformedRecord(String),
    /// The CNAME does not satisfy the allow pattern and no fallback exists; carries the candidate.
    PolicyViolation(String),
}

/// Spec-level image of a [`DnsError`].
pub enum DnsErrorView {
    LookupFailed(Seq<char>),
    NoRecordsFound(Seq<char>),
    MalformedRecord(Seq<char>),
    PolicyViolation(Seq<char>),
}

impl View for DnsError {
    type V = DnsErrorView;

    open spec fn view(&self) -> DnsErrorView {
        match self {
            DnsError::LookupFailed(m) => DnsErrorView::LookupFailed(m@),
            DnsError::NoRecordsFound(m) => DnsErrorView::NoRecordsFound(m@),
            DnsError::MalformedRecord(m) => DnsErrorView::MalformedRecord(m@),
            DnsError::PolicyViolation(m) => DnsErrorView::PolicyViolation(m@),
        }
    }
}

impl DnsError {
    /// The error as text: what failed, and the value or message it carries.
    pub open spec fn spec_message(self) -> Seq<char> {
        match self {
            DnsError::LookupFailed(m) => "DNS lookup failed: "@ + m@,
            DnsError::NoRecordsFound(m) => "No DNS records found: "@ + m@,
            DnsError::MalformedRecord(m) => "Failed to parse DNS record: "@ + m@,
            DnsError::PolicyViolation(m) => "CNAME '"@ + m@
                + "' does not match allowed domain regex"@,
        }
    }

    /// Render the error as human-readable text.
    pub fn message(&self) -> (r: String)
        ensures
            r@ == self.spec_message(),
    {
        match self {
            DnsError::LookupFailed(m) => {
                let mut s = String::from_str("DNS lookup failed: ");
                s.append(m.as_str());
                s
            },
            DnsError::NoRecordsFound(m) => {
                let mut s = String::from_str("No DNS records found: ");
                s.append(m.as_str());
                s
            },
            DnsError::MalformedRecord(m) => {
                let mut s = String::from_str("Failed to parse DNS record: ");
                s.append(m.as_str());
                s
            },
            DnsError::PolicyViolation(m) => {
                let mut s = String::from_str("CNAME '");
                s.append(m.as_str());
                s.append("' does not match allowed domain regex");
                s
            },
        }
    }
}

/// Outcome of the TXT query for the app-address probe name, as the DNS client
/// reported it.
pub enum TxtOutcome {
    /// The lookup itself failed; carries the transport's error text.
    Failed(String),
    /// The lookup succeeded; carries the TXT values in answer order.
    Records(Vec<String>),
}

/// Spec-level image of a [`TxtOutcome`].
pub enum TxtOutcomeView {
    Failed(Seq<char>),
    Records(Seq<Seq<char>>),
}

impl View for TxtOutcome {
    type V = TxtOutcomeView;

    open spec fn view(&self) -> TxtOutcomeView {
        match self {
            TxtOutcome::Failed(m) => TxtOutcomeView::Failed(m@),
            TxtOutcome::Records(rs) => TxtOutcomeView::Records(rs.deep_view()),
        }
    }
}

/// Outcome of the CNAME query for the domain, as the DNS client reported it.
pub enum CnameOutcome {
    /// The lookup itself failed; carries the transport's error text.
    Failed(String),
    /// The lookup succeeded but the answer held no record with data.
    NoRecords,
    /// The first record's data is not a CNAME.
    NotCname,
    /// The first CNAME value, as published (it may end in the root-zone dot).
    Value(String),
}

/// Spec-level image of a [`CnameOutcome`].
pub enum CnameOutcomeView {
    Failed(Seq<char>),
    NoRecords,
    NotCname,
    Value(Seq<char>),
}

impl View for CnameOutcome {
    type V = CnameOutcomeView;

    open spec fn view(&self) -> CnameOutcomeView {
        match self {
            CnameOutcome::Failed(m) => CnameOutcomeView::Failed(m@),
            CnameOutcome::NoRecords => CnameOutcomeView::NoRecords,
            CnameOutcome::NotCname => CnameOutcomeView::NotCname,
            CnameOutcome::Value(v) => CnameOutcomeView::Value(v@),
        }
    }
}

/// An application address parsed from a TXT value of the form `"app-id:port"`.
#[derive(Debug)]
pub struct AppAddress {
    pub app_id: String,
    pub port: String,
}

/// Spec-level image of an [`AppAddress`].
pub struct AppAddressView {
    pub app_id: Seq<char>,
    pub port: Seq<char>,
}

impl View for AppAddress {
    type V = AppAddressView;

    open spec fn view(&self) -> AppAddressView {
        AppAddressView { app_id: self.app_id@, port: self.port@ }
    }
}

/// Spec-level image of a `Result` carrying a domain or URL string.
pub open spec fn view_domain_result(r: Result<String, DnsError>) -> Result<
    Seq<char>,
    DnsErrorView,
> {
    match r {
        Ok(s) => Ok(s@),
        Err(e) => Err(e@),
    }
}

/// Spec-level image of a `Result` carrying a parsed app address.
pub open spec fn view_address_result(r: Result<AppAddress, DnsError>) -> Result<
    AppAddressView,
    DnsErrorView,
> {
    match r {
        Ok(a) => Ok(a@),
        Err(e) => Err(e@),
    }
}

/// Position `i` splits `s` into the two non-empty halves of an `"app-id:port"`
/// value: `s[i]` is the only colon in `s`, and neither half is empty.
pub open spec fn app_address_split_at(s: Seq<char>, i: int) -> bool {
    &&& 1 <= i
    &&& i + 1 < s.len()
    &&& s[i] == ':'
    &&& forall|j: int| 0 <= j < s.len() && j != i ==> s[j] != ':'
}

/// A TXT value follows the `"app-id:port"` contract: exactly one colon, with
/// a non-empty value on each side of it.
pub open spec fn valid_app_address(s: Seq<char>) -> bool {
    exists|i: int| app_address_split_at(s, i)
}

/// The position of the single colon of a valid `"app-id:port"` value.
pub open spec fn app_address_split(s: Seq<char>) -> int {
    choose|i: int| app_address_split_at(s, i)
}

/// What parsing a TXT value yields: the two halves of a conforming value, or
/// `MalformedRecord` carrying the offending value.
pub open spec fn spec_parse_app_address(v: Seq<char>) -> Result<AppAddressView, DnsErrorView> {
    if valid_app_address(v) {
        let i = app_address_split(v);
        Ok(AppAddressView { app_id: v.subrange(0, i), port: v.subrange(i + 1, v.len() as int) })
    } else {
        Err(DnsErrorView::MalformedRecord(v))
    }
}

/// What resolving the app address from a TXT outcome yields: a transport
/// failure and an empty answer are errors (there is no fallback for the
/// address record); otherwise the first TXT value is parsed.
pub open spec fn spec_lookup_app_address(domain: Seq<char>, txt: TxtOutcomeView) -> Result<
    AppAddressView,
    DnsErrorView,
> {
    match txt {
        TxtOutcomeView::Failed(m) => Err(DnsErrorView::LookupFailed(m)),
        TxtOutcomeView::Records(rs) => if rs.len() == 0 {
            Err(DnsErrorView::NoRecordsFound(domain))
        } else {
            spec_parse_app_address(rs[0])
        },
    }
}

/// `s` with every trailing `'.'` removed.
pub open spec fn trim_trailing_dots(s: Seq<char>) -> Seq<char>
    decreases s.len(),
{
    if s.len() > 0 && s.last() == '.' {
        trim_trailing_dots(s.drop_last())
    } else {
        s
    }
}

/// `s` with a literal leading `"_."` removed, if present.
pub open spec fn strip_wildcard_prefix(s: Seq<char>) -> Seq<char> {
    if s.len() >= 2 && s[0] == '_' && s[1] == '.' {
        s.subrange(2, s.len() as int)
    } else {
        s
    }
}

/// Whether a pattern is accepted by the regex engine.
pub uninterp spec fn pattern_ok(pattern: Seq<char>) -> bool;

/// Relies on regex::Regex::new: whether a pattern compiles is a function of
/// the pattern text alone.
#[verifier::external_body]
fn pattern_compiles(pattern: &str) -> (r: bool)
    ensures
        r == pattern_ok(pattern@),
{
    regex::Regex::new(pattern).is_ok()
}

/// What probing a text with a pattern and a capture-group index yields.  The
/// outer level says whether the pattern matched the text at all; the inner
/// level whether the requested capture group took part in the match, and if
/// so, the text it captured.
pub uninterp spec fn regex_captures(pattern: Seq<char>, text: Seq<char>, group: int) -> Option<
    Option<Seq<char>>,
>;

/// Spec-level image of a capture probe's result.
pub open spec fn captures_view(r: Option<Option<String>>) -> Option<Option<Seq<char>>> {
    match r {
        None => None,
        Some(None) => Some(None),
        Some(Some(s)) => Some(Some(s@)),
    }
}

/// Relies on regex::Regex::new, regex::Regex::captures, regex::Captures::get
/// and regex::Match::as_str: whether the pattern matches the text, whether a
/// capture group takes part in the match, and the text the group captures,
/// are all functions of the pattern and the text alone.
#[verifier::external_body]
fn captures_group(pattern: &str, text: &str, group: usize) -> (r: Option<Option<String>>)
    requires
        pattern_ok(pattern@),
    ensures
        captures_view(r) == regex_captures(pattern@, text@, group as int),
{
    let re = regex::Regex::new(pattern).unwrap();
    match re.captures(text) {
        None => None,
        Some(caps) => match caps.get(group) {
            None => Some(None),
            Some(m) => Some(Some(m.as_str().to_string())),
        },
    }
}

/// DNS resolver policy: fallback routing domain, allow pattern, and which
/// capture group of the pattern yields the routing domain.
pub struct DnsResolver {
    fallback_gateway_domain: Option<String>,
    allowed_domain_pattern: Option<String>,
    gateway_domain_capture_group: usize,
}

impl DnsResolver {
    #[verifier::type_invariant]
    spec fn wf(self) -> bool {
        match self.allowed_domain_pattern {
            Some(p) => pattern_ok(p@),
            None => true,
        }
    }

    /// The configured fallback routing domain, if any.
    pub closed spec fn spec_fallback(self) -> Option<Seq<char>> {
        match self.fallback_gateway_domain {
            Some(f) => Some(f@),
            None => None,
        }
    }

    /// The configured allow pattern, if any.
    pub closed spec fn spec_pattern(self) -> Option<Seq<char>> {
        match self.allowed_domain_pattern {
            Some(p) => Some(p@),
            None => None,
        }
    }

    /// The configured capture-group index.
    pub closed spec fn spec_group(self) -> int {
        self.gateway_domain_capture_group as int
    }

    /// Build a resolver from its configuration.  A pattern that the regex
    /// engine refuses is dropped, leaving no pattern configured, as is a
    /// pattern entry of `None`.
    pub fn new(
        fallback_gateway_domain: Option<String>,
        allowed_domain_pattern: Option<String>,
        gateway_domain_capture_group: usize,
    ) -> (r: Result<DnsResolver, DnsError>)
        ensures
            r matches Ok(resolver) && resolver.spec_fallback() == fallback_gateway_domain.deep_view()
                && resolver.spec_group() == gateway_domain_capture_group as int
                && resolver.spec_pattern() == (match allowed_domain_pattern {
                Some(p) => if pattern_ok(p@) {
                    Some(p@)
                } else {
                    None::<Seq<char>>
                },
                None => None::<Seq<char>>,
            }),
    {
        let pattern = match allowed_domain_pattern {
            Some(p) => if pattern_compiles(p.as_str()) {
                Some(p)
            } else {
                None
            },
            None => None,
        };
        Ok(
            DnsResolver {
                fallback_gateway_domain,
                allowed_domain_pattern: pattern,
                gateway_domain_capture_group,
            },
        )
    }

    /// What resolving the routing domain from a CNAME outcome yields.
    ///
    /// A transport failure falls back to the configured fallback domain, or
    /// fails with `LookupFailed`.  A successful answer gives a candidate (the
    /// value with trailing dots trimmed): with a pattern configured, a match
    /// yields the configured capture group, or the whole candidate when that
    /// group took no part in the match, while a non-matching candidate falls
    /// back or fails with `PolicyViolation`; with no pattern configured, the
    /// candidate is used as-is apart from a literal `"_."` prefix.
    pub open spec fn spec_lookup_gateway_domain(
        self,
        domain: Seq<char>,
        cname: CnameOutcomeView,
    ) -> Result<Seq<char>, DnsErrorView> {
        match cname {
            CnameOutcomeView::Failed(m) => match self.spec_fallback() {
                Some(f) => Ok(f),
                None => Err(DnsErrorView::LookupFailed(m)),
            },
            CnameOutcomeView::NoRecords => Err(DnsErrorView::NoRecordsFound(domain)),
            CnameOutcomeView::NotCname => Err(DnsErrorView::MalformedRecord(domain)),
            CnameOutcomeView::Value(v) => {
                let candidate = trim_trailing_dots(v);
                match self.spec_pattern() {
                    Some(p) => match regex_captures(p, candidate, self.spec_group()) {
                        Some(Some(g)) => Ok(g),
                        Some(None) => Ok(candidate),
                        None => match self.spec_fallback() {
                            Some(f) => Ok(f),
                            None => Err(DnsErrorView::PolicyViolation(candidate)),
                        },
                    },
                    None => Ok(strip_wildcard_prefix(candidate)),
                }
            },
        }
    }

    /// Resolve the app address from the outcome of the TXT query for the
    /// probe name of `domain`.
    pub fn lookup_app_address(&self, domain: &str, txt: &TxtOutcome) -> (r: Result<
        AppAddress,
        DnsError,
    >)
        ensures
            view_address_result(r) == spec_lookup_app_address(domain@, txt@),
    {
        match txt {
            TxtOutcome::Failed(m) => Err(DnsError::LookupFailed(m.clone())),
            TxtOutcome::Records(rs) => {
                if rs.len() == 0 {
                    Err(DnsError::NoRecordsFound(domain.to_owned()))
                } else {
                    parse_app_address(rs[0].as_str())
                }
            },
        }
    }

    /// Resolve the routing domain from the outcome of the CNAME query for
    /// `domain`.
    pub fn lookup_gateway_domain(&self, domain: &str, cname: &CnameOutcome) -> (r: Result<
        String,
        DnsError,
    >)
        ensures
            view_domain_result(r) == self.spec_lookup_gateway_domain(domain@, cname@),
    {
        proof {
            use_type_invariant(&*self);
        }
        match cname {
            CnameOutcome::Failed(m) => match &self.fallback_gateway_domain {
                Some(f) => Ok(f.clone()),
                None => Err(DnsError::LookupFailed(m.clone())),
            },
            CnameOutcome::NoRecords => Err(DnsError::NoRecordsFound(domain.to_owned())),
            CnameOutcome::NotCname => Err(DnsError::MalformedRecord(domain.to_owned())),
            CnameOutcome::Value(v) => {
                let candidate = trim_trailing_dots_str(v.as_str());
                match &self.allowed_domain_pattern {
                    Some(p) => {
                        match captures_group(
                            p.as_str(),
                            candidate.as_str(),
                            self.gateway_domain_capture_group,
                        ) {
                            Some(g_opt) => match g_opt {
                                Some(g) => Ok(g),
                                None => Ok(candidate),
                            },
                            None => match &self.fallback_gateway_domain {
                                Some(f) => Ok(f.clone()),
                                None => Err(DnsError::PolicyViolation(candidate)),
                            },
                        }
                    },
                    None => Ok(strip_wildcard_prefix_str(candidate.as_str())),
                }
            },
        }
    }

    /// What the full resolution yields: both lookups combined into the target
    /// URL `https://{app-id}.{routing-domain}{path}`, with the app-address
    /// error taking precedence.
    pub open spec fn spec_resolve_app_url(
        self,
        domain: Seq<char>,
        txt: TxtOutcomeView,
        cname: CnameOutcomeView,
        path: Seq<char>,
    ) -> Result<Seq<char>, DnsErrorView> {
        match spec_lookup_app_address(domain, txt) {
            Err(e) => Err(e),
            Ok(addr) => match self.spec_lookup_gateway_domain(domain, cname) {
                Err(e) => Err(e),
                Ok(gw) => Ok("https://"@ + addr.app_id + "."@ + gw + path),
            },
        }
    }

    /// Resolve the complete target URL for `domain` from the two lookup
    /// outcomes, carrying `path` over verbatim.
    pub fn resolve_app_url(
        &self,
        domain: &str,
        txt: &TxtOutcome,
        cname: &CnameOutcome,
        path: &str,
    ) -> (r: Result<String, DnsError>)
        ensures
            view_domain_result(r) == self.spec_resolve_app_url(domain@, txt@, cname@, path@),
    {
        let addr = match self.lookup_app_address(domain, txt) {
            Ok(a) => a,
            Err(e) => {
                return Err(e);
            },
        };
        let gateway = match self.lookup_gateway_domain(domain, cname) {
            Ok(g) => g,
            Err(e) => {
                return Err(e);
            },
        };
        let mut url = String::from_str("https://");
        url.append(addr.app_id.as_str());
        url.append(".");
        url.append(gateway.as_str());
        url.append(path);
        Ok(url)
    }

    /// Whether both lookups of `domain` resolve, whatever the path.
    pub open spec fn spec_is_dstack_custom_domain(
        self,
        domain: Seq<char>,
        txt: TxtOutcomeView,
        cname: CnameOutcomeView,
    ) -> bool {
        spec_lookup_app_address(domain, txt) is Ok && self.spec_lookup_gateway_domain(
            domain,
            cname,
        ) is Ok
    }

    /// The resolution of [`Self::resolve_app_url`] collapsed to a boolean:
    /// does `domain` resolve to a managed application?
    pub fn is_dstack_custom_domain(&self, domain: &str, txt: &TxtOutcome, cname: &CnameOutcome) -> (r:
        bool)
        ensures
            r == self.spec_is_dstack_custom_domain(domain@, txt@, cname@),
    {
        let addr_ok = self.lookup_app_address(domain, txt).is_ok();
        let gw_ok = self.lookup_gateway_domain(domain, cname).is_ok();
        addr_ok && gw_ok
    }
}

/// The probe name whose TXT record holds the app address.
pub fn app_address_probe_name(domain: &str) -> (r: String)
    ensures
        r@ == "_dstack-app-address."@ + domain@,
{
    let mut s = String::from_str("_dstack-app-address.");
    s.append(domain);
    s
}

/// Parse a TXT value against the `"app-id:port"` contract.
pub fn parse_app_address(value: &str) -> (r: Result<AppAddress, DnsError>)
    ensures
        view_address_result(r) == spec_parse_app_address(value@),
{
    let n = value.unicode_len();
    let colon = find_colon(value);
    match colon {
        None => {
            proof {
                lemma_no_witness_without_colon(value@);
            }
            Err(DnsError::MalformedRecord(value.to_owned()))
        },
        Some(c) => {
            if c == 0 || c + 1 >= n || has_colon_from(value, c + 1) {
                proof {
                    lemma_invalid_split(value@, c as int);
                }
                Err(DnsError::MalformedRecord(value.to_owned()))
            } else {
                proof {
                    assert(app_address_split_at(value@, c as int));
                    lemma_split_unique(value@, c as int);
                }
                let app_id = String::from_str(value.substring_char(0, c));
                let port = String::from_str(value.substring_char(c + 1, n));
                Ok(AppAddress { app_id, port })
            }
        },
    }
}

/// The position of the first colon of `value`, if any.
fn find_colon(value: &str) -> (r: Option<usize>)
    ensures
        match r {
            Some(c) => c < value@.len() && value@[c as int] == ':' && forall|j: int|
                0 <= j < c ==> value@[j] != ':',
            None => forall|j: int| 0 <= j < value@.len() ==> value@[j] != ':',
        },
{
    let n = value.unicode_len();
    let mut i: usize = 0;
    while i < n
        invariant
            i <= n,
            n == value@.len(),
            forall|j: int| 0 <= j < i ==> value@[j] != ':',
        decreases n - i,
    {
        if value.get_char(i) == ':' {
            return Some(i);
        }
        i = i + 1;
    }
    None
}

/// Whether `value` holds a colon at or after position `from`.
fn has_colon_from(value: &str, from: usize) -> (r: bool)
    ensures
        r == exists|j: int| from <= j < value@.len() && value@[j] == ':',
{
    let n = value.unicode_len();
    let mut i: usize = from;
    if i > n {
        return false;
    }
    while i < n
        invariant
            from <= i <= n,
            n == value@.len(),
            forall|j: int| from <= j < i ==> value@[j] != ':',
        decreases n - i,
    {
        if value.get_char(i) == ':' {
            return true;
        }
        i = i + 1;
    }
    false
}

/// A value with no colon at all has no conforming split.
proof fn lemma_no_witness_without_colon(s: Seq<char>)
    requires
        forall|j: int| 0 <= j < s.len() ==> s[j] != ':',
    ensures
        !valid_app_address(s),
{
    if valid_app_address(s) {
        let i = app_address_split(s);
        assert(app_address_split_at(s, i));
        assert(false);
    }
}

/// With its first colon at position `c`, a value whose `c` sits at an end, or
/// which holds a second colon, has no conforming split.
proof fn lemma_invalid_split(s: Seq<char>, c: int)
    requires
        0 <= c < s.len(),
        s[c] == ':',
        forall|j: int| 0 <= j < c ==> s[j] != ':',
        c == 0 || c + 1 >= s.len() || exists|j: int| c < j < s.len() && s[j] == ':',
    ensures
        !valid_app_address(s),
{
    if valid_app_address(s) {
        let i = app_address_split(s);
        assert(app_address_split_at(s, i));
        assert(i == c);
        assert(false);
    }
}

/// A conforming split position is the only one.
proof fn lemma_split_unique(s: Seq<char>, c: int)
    requires
        app_address_split_at(s, c),
    ensures
        valid_app_address(s),
        app_address_split(s) == c,
{
    let i = app_address_split(s);
    assert(app_address_split_at(s, i));
    if i != c {
        assert(s[c] != ':');
        assert(false);
    }
}

/// Remove every trailing `'.'` from `value`.
fn trim_trailing_dots_str(value: &str) -> (r: String)
    ensures
        r@ == trim_trailing_dots(value@),
{
    let n = value.unicode_len();
    let mut end = n;
    proof {
        assert(value@.subrange(0, n as int) =~= value@);
    }
    while end > 0 && value.get_char(end - 1) == '.'
        invariant
            end <= n,
            n == value@.len(),
            trim_trailing_dots(value@) == trim_trailing_dots(value@.subrange(0, end as int)),
        decreases end,
    {
        proof {
            assert(value@.subrange(0, end as int).drop_last() =~= value@.subrange(0, end - 1));
        }
        end = end - 1;
    }
    String::from_str(value.substring_char(0, end))
}

/// Remove a literal leading `"_."` from `value`, if present.
fn strip_wildcard_prefix_str(value: &str) -> (r: String)
    ensures
        r@ == strip_wildcard_prefix(value@),
{
    let n = value.unicode_len();
    if n >= 2 && value.get_char(0) == '_' && value.get_char(1) == '.' {
        String::from_str(value.substring_char(2, n))
    } else {
        value.to_owned()
    }
}

/// A TXT answer whose first value breaks the `"app-id:port"` contract makes
/// the whole resolution fail with `MalformedRecord` carrying that value,
/// whatever the CNAME outcome, the configuration and the path.
pub proof fn lemma_malformed_txt_fails(
    resolver: DnsResolver,
    domain: Seq<char>,
    records: Seq<Seq<char>>,
    cname: CnameOutcomeView,
    path: Seq<char>,
)
    requires
        records.len() > 0,
        !valid_app_address(records[0]),
    ensures
        resolver.spec_resolve_app_url(domain, TxtOutcomeView::Records(records), cname, path)
            == Err::<Seq<char>, DnsErrorView>(DnsErrorView::MalformedRecord(records[0])),
{
}

/// The app-address lookup decides first: when the TXT side fails, the
/// resolution fails with exactly that error, and the CNAME outcome has no
/// bearing on it.
pub proof fn lemma_txt_error_decides(
    resolver: DnsResolver,
    domain: Seq<char>,
    txt: TxtOutcomeView,
    cname1: CnameOutcomeView,
    cname2: CnameOutcomeView,
    path: Seq<char>,
)
    requires
        spec_lookup_app_address(domain, txt) is Err,
    ensures
        resolver.spec_resolve_app_url(domain, txt, cname1, path) == resolver.spec_resolve_app_url(
            domain,
            txt,
            cname2,
            path,
        ),
        resolver.spec_resolve_app_url(domain, txt, cname1, path) is Err,
{
}

/// A failed CNAME lookup falls back to the configured fallback routing
/// domain, whatever the failure's text.
pub proof fn lemma_cname_failure_uses_fallback(
    resolver: DnsResolver,
    domain: Seq<char>,
    msg: Seq<char>,
    fallback: Seq<char>,
)
    requires
        resolver.spec_fallback() == Some(fallback),
    ensures
        resolver.spec_lookup_gateway_domain(domain, CnameOutcomeView::Failed(msg)) == Ok::<
            Seq<char>,
            DnsErrorView,
        >(fallback),
{
}

/// A failed CNAME lookup with no fallback configured fails the resolution
/// with `LookupFailed` carrying the transport's text.
pub proof fn lemma_cname_failure_without_fallback_fails(
    resolver: DnsResolver,
    domain: Seq<char>,
    msg: Seq<char>,
)
    requires
        resolver.spec_fallback() is None,
    ensures
        resolver.spec_lookup_gateway_domain(domain, CnameOutcomeView::Failed(msg)) == Err::<
            Seq<char>,
            DnsErrorView,
        >(DnsErrorView::LookupFailed(msg)),
{
}

/// A candidate the configured pattern does not match routes to the fallback
/// when one is configured, and fails with `PolicyViolation` carrying the
/// candidate when none is.
pub proof fn lemma_policy_violation(resolver: DnsResolver, domain: Seq<char>, value: Seq<char>)
    ensures
        ({
            let candidate = trim_trailing_dots(value);
            (resolver.spec_pattern() matches Some(p) && regex_captures(
                p,
                candidate,
                resolver.spec_group(),
            ) is None) ==> {
                &&& resolver.spec_fallback() is None ==> resolver.spec_lookup_gateway_domain(
                    domain,
                    CnameOutcomeView::Value(value),
                ) == Err::<Seq<char>, DnsErrorView>(DnsErrorView::PolicyViolation(candidate))
                &&& resolver.spec_fallback() matches Some(f)
                    ==> resolver.spec_lookup_gateway_domain(domain, CnameOutcomeView::Value(value))
                    == Ok::<Seq<char>, DnsErrorView>(f)
            }
        }),
{
}

/// With a pattern configured, a candidate the pattern matches routes by the
/// configured capture group: the group's text when the group takes part in
/// the match, and the whole candidate when it does not.
pub proof fn lemma_pattern_match_routes(resolver: DnsResolver, domain: Seq<char>, value: Seq<char>)
    ensures
        ({
            let candidate = trim_trailing_dots(value);
            &&& resolver.spec_pattern() matches Some(p) ==> (regex_captures(
                p,
                candidate,
                resolver.spec_group(),
            ) matches Some(Some(g)) ==> resolver.spec_lookup_gateway_domain(
                domain,
                CnameOutcomeView::Value(value),
            ) == Ok::<Seq<char>, DnsErrorView>(g))
            &&& resolver.spec_pattern() matches Some(p) ==> (regex_captures(
                p,
                candidate,
                resolver.spec_group(),
            ) == Some(None::<Seq<char>>) ==> resolver.spec_lookup_gateway_domain(
                domain,
                CnameOutcomeView::Value(value),
            ) == Ok::<Seq<char>, DnsErrorView>(candidate))
        }),
{
}

/// Composition: the resolution succeeds exactly when both lookups do, and
/// then the target URL is composed from the app id, the routing domain and
/// the path, verbatim.
pub proof fn lemma_resolution_composes(
    resolver: DnsResolver,
    domain: Seq<char>,
    txt: TxtOutcomeView,
    cname: CnameOutcomeView,
    path: Seq<char>,
)
    ensures
        resolver.spec_resolve_app_url(domain, txt, cname, path) is Ok <==> (
        spec_lookup_app_address(domain, txt) is Ok && resolver.spec_lookup_gateway_domain(
            domain,
            cname,
        ) is Ok),
        spec_lookup_app_address(domain, txt) matches Ok(addr) ==> (
        resolver.spec_lookup_gateway_domain(domain, cname) matches Ok(gw)
            ==> resolver.spec_resolve_app_url(domain, txt, cname, path) == Ok::<
            Seq<char>,
            DnsErrorView,
        >("https://"@ + addr.app_id + "."@ + gw + path)),
{
}

/// Resolution is deterministic: two resolvers with the same configuration
/// compose the same outcome from the same records and path, however often
/// the resolution is repeated.
pub proof fn lemma_resolution_deterministic(
    r1: DnsResolver,
    r2: DnsResolver,
    domain: Seq<char>,
    txt: TxtOutcomeView,
    cname: CnameOutcomeView,
    path: Seq<char>,
)
    requires
        r1.spec_fallback() == r2.spec_fallback(),
        r1.spec_pattern() == r2.spec_pattern(),
        r1.spec_group() == r2.spec_group(),
    ensures
        r1.spec_resolve_app_url(domain, txt, cname, path) == r2.spec_resolve_app_url(
            domain,
            txt,
            cname,
            path,
        ),
{
}
} // verus!


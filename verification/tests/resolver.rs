use relay_server::dns::{
    app_address_probe_name, parse_app_address, CnameOutcome, DnsError, DnsResolver, TxtOutcome,
};

fn resolver(
    fallback: Option<&str>,
    pattern: Option<&str>,
    group: usize,
) -> DnsResolver {
    DnsResolver::new(
        fallback.map(|s| s.to_string()),
        pattern.map(|s| s.to_string()),
        group,
    )
    .unwrap()
}

fn txt_one(value: &str) -> TxtOutcome {
    TxtOutcome::Records(vec![value.to_string()])
}

const DEFAULT_PATTERN: &str = r"^_\.(.+\.example\.com)$";
const PATH: &str = "/.well-known/acme-challenge/token123";

#[test]
fn test_dns_resolver_creation() {
    let resolver = DnsResolver::new(None, None, 1);
    assert!(resolver.is_ok());
}

#[test]
fn resolves_with_matching_cname() {
    let r = resolver(None, Some(DEFAULT_PATTERN), 1);
    let url = r
        .resolve_app_url(
            "customer.test",
            &txt_one("app1:8080"),
            &CnameOutcome::Value("_.prod.example.com".to_string()),
            PATH,
        )
        .unwrap();
    assert_eq!(url, "https://app1.prod.example.com/.well-known/acme-challenge/token123");
}

#[test]
fn resolves_with_root_zone_dot() {
    let r = resolver(None, Some(DEFAULT_PATTERN), 1);
    let url = r
        .resolve_app_url(
            "customer.test",
            &txt_one("app1:8080"),
            &CnameOutcome::Value("_.prod.example.com.".to_string()),
            PATH,
        )
        .unwrap();
    assert_eq!(url, "https://app1.prod.example.com/.well-known/acme-challenge/token123");
}

#[test]
fn txt_without_colon_is_malformed() {
    let r = resolver(None, Some(DEFAULT_PATTERN), 1);
    let e = r
        .resolve_app_url(
            "customer.test",
            &txt_one("app18080"),
            &CnameOutcome::Value("_.prod.example.com".to_string()),
            PATH,
        )
        .unwrap_err();
    assert!(matches!(e, DnsError::MalformedRecord(v) if v == "app18080"));
}

#[test]
fn txt_with_two_colons_is_malformed() {
    let r = resolver(None, Some(DEFAULT_PATTERN), 1);
    let e = r
        .resolve_app_url(
            "customer.test",
            &txt_one("app1:8080:extra"),
            &CnameOutcome::Value("_.prod.example.com".to_string()),
            PATH,
        )
        .unwrap_err();
    assert!(matches!(e, DnsError::MalformedRecord(v) if v == "app1:8080:extra"));
}

#[test]
fn txt_with_empty_side_is_malformed() {
    assert!(matches!(parse_app_address(":8080"), Err(DnsError::MalformedRecord(_))));
    assert!(matches!(parse_app_address("app1:"), Err(DnsError::MalformedRecord(_))));
    assert!(matches!(parse_app_address(":"), Err(DnsError::MalformedRecord(_))));
    assert!(matches!(parse_app_address(""), Err(DnsError::MalformedRecord(_))));
}

#[test]
fn parse_app_address_splits_value() {
    let addr = parse_app_address("app1:8080").unwrap();
    assert_eq!(addr.app_id, "app1");
    assert_eq!(addr.port, "8080");
}

#[test]
fn txt_lookup_failure_aborts_resolution() {
    let r = resolver(Some("fallback.example.com"), Some(DEFAULT_PATTERN), 1);
    let e = r
        .resolve_app_url(
            "customer.test",
            &TxtOutcome::Failed("timed out".to_string()),
            &CnameOutcome::Value("_.prod.example.com".to_string()),
            PATH,
        )
        .unwrap_err();
    assert!(matches!(e, DnsError::LookupFailed(m) if m == "timed out"));
}

#[test]
fn empty_txt_answer_is_no_records() {
    let r = resolver(None, Some(DEFAULT_PATTERN), 1);
    let e = r
        .lookup_app_address("customer.test", &TxtOutcome::Records(vec![]))
        .unwrap_err();
    assert!(matches!(e, DnsError::NoRecordsFound(d) if d == "customer.test"));
}

#[test]
fn only_first_txt_value_is_consulted() {
    let r = resolver(None, Some(DEFAULT_PATTERN), 1);
    let txt = TxtOutcome::Records(vec!["app1:8080".to_string(), "bogus".to_string()]);
    let addr = r.lookup_app_address("customer.test", &txt).unwrap();
    assert_eq!(addr.app_id, "app1");
}

#[test]
fn cname_failure_uses_fallback() {
    let r = resolver(Some("fallback.example.com"), Some(DEFAULT_PATTERN), 1);
    let url = r
        .resolve_app_url(
            "customer.test",
            &txt_one("app1:8080"),
            &CnameOutcome::Failed("no answer".to_string()),
            PATH,
        )
        .unwrap();
    assert_eq!(url, "https://app1.fallback.example.com/.well-known/acme-challenge/token123");
}

#[test]
fn cname_failure_without_fallback_fails() {
    let r = resolver(None, Some(DEFAULT_PATTERN), 1);
    let e = r
        .resolve_app_url(
            "customer.test",
            &txt_one("app1:8080"),
            &CnameOutcome::Failed("no answer".to_string()),
            PATH,
        )
        .unwrap_err();
    assert!(matches!(e, DnsError::LookupFailed(m) if m == "no answer"));
}

#[test]
fn policy_violation_without_fallback() {
    let r = resolver(None, Some(DEFAULT_PATTERN), 1);
    let e = r
        .resolve_app_url(
            "customer.test",
            &txt_one("app1:8080"),
            &CnameOutcome::Value("gw.other.net".to_string()),
            PATH,
        )
        .unwrap_err();
    assert!(matches!(e, DnsError::PolicyViolation(c) if c == "gw.other.net"));
}

#[test]
fn policy_violation_with_fallback_uses_fallback() {
    let r = resolver(Some("fallback.example.com"), Some(DEFAULT_PATTERN), 1);
    let url = r
        .resolve_app_url(
            "customer.test",
            &txt_one("app1:8080"),
            &CnameOutcome::Value("gw.other.net".to_string()),
            PATH,
        )
        .unwrap();
    assert_eq!(url, "https://app1.fallback.example.com/.well-known/acme-challenge/token123");
}

#[test]
fn absent_capture_group_uses_whole_candidate() {
    let r = resolver(None, Some(DEFAULT_PATTERN), 5);
    let gw = r
        .lookup_gateway_domain(
            "customer.test",
            &CnameOutcome::Value("_.prod.example.com".to_string()),
        )
        .unwrap();
    assert_eq!(gw, "_.prod.example.com");
}

#[test]
fn no_pattern_strips_wildcard_prefix() {
    let r = resolver(None, None, 1);
    let gw = r
        .lookup_gateway_domain(
            "customer.test",
            &CnameOutcome::Value("_.prod.example.com.".to_string()),
        )
        .unwrap();
    assert_eq!(gw, "prod.example.com");
    let plain = r
        .lookup_gateway_domain("customer.test", &CnameOutcome::Value("gw.example.com".to_string()))
        .unwrap();
    assert_eq!(plain, "gw.example.com");
}

#[test]
fn invalid_pattern_is_dropped() {
    let r = resolver(None, Some("(unclosed"), 1);
    let gw = r
        .lookup_gateway_domain(
            "customer.test",
            &CnameOutcome::Value("_.prod.example.com".to_string()),
        )
        .unwrap();
    assert_eq!(gw, "prod.example.com");
}

#[test]
fn empty_cname_answer_is_no_records() {
    let r = resolver(Some("fallback.example.com"), Some(DEFAULT_PATTERN), 1);
    let e = r.lookup_gateway_domain("customer.test", &CnameOutcome::NoRecords).unwrap_err();
    assert!(matches!(e, DnsError::NoRecordsFound(d) if d == "customer.test"));
}

#[test]
fn non_cname_record_is_malformed() {
    let r = resolver(Some("fallback.example.com"), Some(DEFAULT_PATTERN), 1);
    let e = r.lookup_gateway_domain("customer.test", &CnameOutcome::NotCname).unwrap_err();
    assert!(matches!(e, DnsError::MalformedRecord(d) if d == "customer.test"));
}

#[test]
fn repeated_resolution_is_stable() {
    let r = resolver(None, Some(DEFAULT_PATTERN), 1);
    let txt = txt_one("app1:8080");
    let cname = CnameOutcome::Value("_.prod.example.com".to_string());
    let first = r.resolve_app_url("customer.test", &txt, &cname, PATH).unwrap();
    let second = r.resolve_app_url("customer.test", &txt, &cname, PATH).unwrap();
    assert_eq!(first, second);
}

#[test]
fn managed_domain_check_collapses_resolution() {
    let r = resolver(None, Some(DEFAULT_PATTERN), 1);
    let cname = CnameOutcome::Value("_.prod.example.com".to_string());
    assert!(r.is_dstack_custom_domain("customer.test", &txt_one("app1:8080"), &cname));
    assert!(!r.is_dstack_custom_domain(
        "customer.test",
        &TxtOutcome::Failed("timed out".to_string()),
        &cname
    ));
    assert!(!r.is_dstack_custom_domain(
        "customer.test",
        &txt_one("app1:8080"),
        &CnameOutcome::Failed("no answer".to_string())
    ));
}

#[test]
fn error_messages_name_what_failed() {
    assert_eq!(
        DnsError::LookupFailed("timed out".to_string()).message(),
        "DNS lookup failed: timed out"
    );
    assert_eq!(
        DnsError::NoRecordsFound("customer.test".to_string()).message(),
        "No DNS records found: customer.test"
    );
    assert_eq!(
        DnsError::MalformedRecord("app18080".to_string()).message(),
        "Failed to parse DNS record: app18080"
    );
    assert_eq!(
        DnsError::PolicyViolation("gw.other.net".to_string()).message(),
        "CNAME 'gw.other.net' does not match allowed domain regex"
    );
}

#[test]
fn probe_name_prefixes_domain() {
    assert_eq!(app_address_probe_name("customer.test"), "_dstack-app-address.customer.test");
}

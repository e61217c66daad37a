use relay_server::dns::DnsError;
use relay_server::relay::{
    acme_challenge_path, filter_request_headers, filter_response_headers, is_upgrade_request,
    map_method, plan_relay, should_forward_request_header, should_forward_response_header,
    upgrade_rejection, RelayMode, RelayPlan,
};

fn pairs(items: &[(&str, &str)]) -> Vec<(String, String)> {
    items.iter().map(|(k, v)| (k.to_string(), v.to_string())).collect()
}

#[test]
fn mode_setting_selects_proxy_only_explicitly() {
    assert_eq!(RelayMode::from_setting(Some("proxy")), RelayMode::Proxy);
    assert_eq!(RelayMode::from_setting(Some("redirect")), RelayMode::Redirect);
    assert_eq!(RelayMode::from_setting(Some("tunnel")), RelayMode::Redirect);
    assert_eq!(RelayMode::from_setting(Some("PROXY")), RelayMode::Redirect);
    assert_eq!(RelayMode::from_setting(None), RelayMode::Redirect);
}

#[test]
fn upgrade_detection_is_case_insensitive() {
    assert!(is_upgrade_request(Some("Upgrade")));
    assert!(is_upgrade_request(Some("keep-alive, UPGRADE")));
    assert!(is_upgrade_request(Some("upgrade")));
    assert!(!is_upgrade_request(Some("keep-alive")));
    assert!(!is_upgrade_request(Some("close")));
    assert!(!is_upgrade_request(None));
}

#[test]
fn proxy_mode_refuses_upgrades() {
    assert_eq!(upgrade_rejection(RelayMode::Proxy, Some("Upgrade")), Some(501));
    assert_eq!(upgrade_rejection(RelayMode::Proxy, Some("keep-alive")), None);
    assert_eq!(upgrade_rejection(RelayMode::Redirect, Some("Upgrade")), None);
    assert_eq!(upgrade_rejection(RelayMode::Redirect, None), None);
}

#[test]
fn hop_by_hop_request_headers_are_blocked() {
    for name in
        ["transfer-encoding", "content-length", "te", "trailer", "proxy-connection", "keep-alive"]
    {
        assert!(!should_forward_request_header(name));
    }
    assert!(!should_forward_request_header("Content-Length"));
    assert!(!should_forward_request_header("Keep-Alive"));
    for name in ["host", "cookie", "authorization", "accept", "connection"] {
        assert!(should_forward_request_header(name));
    }
}

#[test]
fn transport_framing_response_headers_are_blocked() {
    for name in ["connection", "transfer-encoding", "content-encoding", "content-length"] {
        assert!(!should_forward_response_header(name));
    }
    assert!(!should_forward_response_header("Connection"));
    for name in ["content-type", "set-cookie", "cache-control", "te"] {
        assert!(should_forward_response_header(name));
    }
}

#[test]
fn request_filter_round_trips_other_headers() {
    let inbound = pairs(&[
        ("host", "customer.test"),
        ("Transfer-Encoding", "chunked"),
        ("cookie", "a=1"),
        ("content-length", "42"),
        ("te", "trailers"),
        ("trailer", "expires"),
        ("proxy-connection", "keep-alive"),
        ("keep-alive", "timeout=5"),
        ("authorization", "Bearer t"),
    ]);
    let outbound = filter_request_headers(&inbound);
    let expected =
        pairs(&[("host", "customer.test"), ("cookie", "a=1"), ("authorization", "Bearer t")]);
    assert_eq!(outbound, expected);
}

#[test]
fn response_filter_round_trips_other_headers() {
    let upstream = pairs(&[
        ("content-type", "text/plain"),
        ("Connection", "close"),
        ("transfer-encoding", "chunked"),
        ("content-encoding", "gzip"),
        ("content-length", "10"),
        ("set-cookie", "s=2"),
    ]);
    let back = filter_response_headers(&upstream);
    let expected = pairs(&[("content-type", "text/plain"), ("set-cookie", "s=2")]);
    assert_eq!(back, expected);
}

#[test]
fn known_methods_pass_through() {
    for m in ["GET", "POST", "PUT", "DELETE", "HEAD", "OPTIONS", "PATCH"] {
        assert_eq!(map_method(m), m);
    }
}

#[test]
fn unknown_methods_become_get() {
    assert_eq!(map_method("TRACE"), "GET");
    assert_eq!(map_method("CONNECT"), "GET");
    assert_eq!(map_method("get"), "GET");
    assert_eq!(map_method(""), "GET");
}

#[test]
fn redirect_mode_plans_temporary_redirect() {
    let plan = plan_relay(
        RelayMode::Redirect,
        Ok("https://app1.prod.example.com/x".to_string()),
    );
    match plan {
        RelayPlan::Redirect { status, location } => {
            assert_eq!(status, 307);
            assert_eq!(location, "https://app1.prod.example.com/x");
        }
        _ => panic!("redirect mode must plan a redirect"),
    }
}

#[test]
fn proxy_mode_plans_proxy_hop() {
    let plan =
        plan_relay(RelayMode::Proxy, Ok("https://app1.prod.example.com/x".to_string()));
    match plan {
        RelayPlan::Proxy { target } => {
            assert_eq!(target, "https://app1.prod.example.com/x");
        }
        _ => panic!("proxy mode must plan a proxy hop"),
    }
}

#[test]
fn failed_resolution_plans_bad_gateway() {
    let plan = plan_relay(
        RelayMode::Redirect,
        Err(DnsError::LookupFailed("no answer".to_string())),
    );
    match plan {
        RelayPlan::Fail { status, error } => {
            assert_eq!(status, 502);
            assert!(matches!(error, DnsError::LookupFailed(m) if m == "no answer"));
        }
        _ => panic!("a failed resolution must plan an error answer"),
    }
}

#[test]
fn challenge_path_carries_token() {
    assert_eq!(acme_challenge_path("token123"), "/.well-known/acme-challenge/token123");
}

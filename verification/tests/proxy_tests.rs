use backend::models::Session;
use backend::proxy::{
    decide_forward, failure_reply, handle_proxy_request, plan_forward, ProxyError, ProxyStage,
    ProxyStep,
};
use backend::registry::{get_session_by_token, insert_session, Registry, StorageError};
use backend::reply::{Reply, ReplyBody};
use backend::resolver::{HostPolicy, Target};

const BASE: &str = "directdns.net";

fn not_found() -> ProxyStep {
    ProxyStep::Respond(Reply {
        status: 404,
        headers: Vec::new(),
        body: ReplyBody::Text("Not found".to_string()),
    })
}

fn record(hostname: &str, ip_address: Option<&str>) -> Session {
    Session {
        token: "abc12345".to_string(),
        hostname: hostname.to_string(),
        ip_address: ip_address.map(|ip| ip.to_string()),
        created_at: None,
    }
}

fn received(host: &str) -> ProxyStage {
    ProxyStage::Received { host: Some(host.to_string()) }
}

fn looked_up(found: Option<Session>, path_and_query: &str) -> ProxyStage {
    ProxyStage::LookedUp { found: Ok(found), path_and_query: Some(path_and_query.to_string()) }
}

/// Drives a request through the registry up to the step after the lookup.
fn route(registry: &Registry, host: &str, path_and_query: &str) -> ProxyStep {
    match handle_proxy_request(received(host), BASE) {
        ProxyStep::Lookup { token } => handle_proxy_request(
            ProxyStage::LookedUp {
                found: get_session_by_token(registry, &token),
                path_and_query: Some(path_and_query.to_string()),
            },
            BASE,
        ),
        step => step,
    }
}

#[test]
fn a_request_for_a_token_asks_for_its_lookup() {
    assert_eq!(
        handle_proxy_request(received("abc12345.directdns.net"), BASE),
        ProxyStep::Lookup { token: "abc12345".to_string() }
    );
    assert_eq!(
        handle_proxy_request(received("abc12345.directdns.net:3000"), BASE),
        ProxyStep::Lookup { token: "abc12345".to_string() }
    );
    assert_eq!(
        handle_proxy_request(received("foo.bar.directdns.net"), BASE),
        ProxyStep::Lookup { token: "foo.bar".to_string() }
    );
}

#[test]
fn a_request_to_the_apex_is_not_found() {
    assert_eq!(handle_proxy_request(received("directdns.net"), BASE), not_found());
    assert_eq!(handle_proxy_request(received("directdns.net:3000"), BASE), not_found());
}

#[test]
fn a_request_to_another_domain_is_not_found() {
    assert_eq!(handle_proxy_request(received("other.com"), BASE), not_found());
    assert_eq!(handle_proxy_request(received("abc12345.other.com"), BASE), not_found());
}

#[test]
fn a_request_without_host_is_not_found() {
    assert_eq!(handle_proxy_request(ProxyStage::Received { host: None }, BASE), not_found());
    assert_eq!(handle_proxy_request(received(""), BASE), not_found());
}

#[test]
fn a_record_with_a_hostname_is_forwarded_over_https() {
    let mut registry = Registry::new();
    insert_session(&mut registry, "abc12345", "example.com", None, None).unwrap();
    assert_eq!(
        route(&registry, "abc12345.directdns.net", "/foo?x=1"),
        ProxyStep::Forward(Target {
            uri: "https://example.com/foo?x=1".to_string(),
            host: HostPolicy::FromTarget,
        })
    );
}

#[test]
fn a_record_with_an_address_is_forwarded_over_http_with_its_hostname_as_host() {
    let mut registry = Registry::new();
    insert_session(&mut registry, "abc12345", "example.com", Some("10.0.0.5"), None).unwrap();
    assert_eq!(
        route(&registry, "abc12345.directdns.net", "/foo?x=1"),
        ProxyStep::Forward(Target {
            uri: "http://10.0.0.5/foo?x=1".to_string(),
            host: HostPolicy::Explicit("example.com".to_string()),
        })
    );
}

#[test]
fn an_unregistered_token_is_not_found() {
    let mut registry = Registry::new();
    assert_eq!(route(&registry, "abc12345.directdns.net", "/foo?x=1"), not_found());
    insert_session(&mut registry, "abc12345", "example.com", None, None).unwrap();
    assert_eq!(route(&registry, "0f9e8d7c.directdns.net", "/foo?x=1"), not_found());
    assert_eq!(handle_proxy_request(looked_up(None, "/"), BASE), not_found());
}

#[test]
fn a_failure_of_the_registry_ends_the_request() {
    let stage = ProxyStage::LookedUp {
        found: Err(StorageError::Unavailable),
        path_and_query: Some("/".to_string()),
    };
    assert_eq!(
        handle_proxy_request(stage, BASE),
        ProxyStep::Fail(ProxyError::Storage(StorageError::Unavailable))
    );
}

#[test]
fn a_request_without_path_is_forwarded_to_the_bare_target() {
    let stage = ProxyStage::LookedUp {
        found: Ok(Some(record("example.com", None))),
        path_and_query: None,
    };
    assert_eq!(
        handle_proxy_request(stage, BASE),
        ProxyStep::Forward(Target {
            uri: "https://example.com".to_string(),
            host: HostPolicy::FromTarget,
        })
    );
}

#[test]
fn a_target_that_is_no_uri_ends_the_request() {
    assert_eq!(
        handle_proxy_request(looked_up(Some(record("exam ple.com", None)), "/foo"), BASE),
        ProxyStep::Fail(ProxyError::InvalidTarget)
    );
    assert_eq!(
        handle_proxy_request(looked_up(Some(record("example.com", Some(""))), "/foo"), BASE),
        ProxyStep::Fail(ProxyError::InvalidTarget)
    );
    assert_eq!(
        plan_forward(&record("example.com", Some("10.0.0.5")), "/a b"),
        ProxyStep::Fail(ProxyError::InvalidTarget)
    );
}

#[test]
fn a_hostname_that_is_no_header_value_ends_the_request() {
    assert_eq!(
        plan_forward(&record("exam\nple.com", Some("10.0.0.5")), "/foo"),
        ProxyStep::Fail(ProxyError::InvalidHost)
    );
    assert_eq!(
        plan_forward(&record("example.com\u{7f}", Some("10.0.0.5")), "/foo"),
        ProxyStep::Fail(ProxyError::InvalidHost)
    );
    assert_eq!(
        plan_forward(&record("\u{0}", Some("10.0.0.5")), "/foo"),
        ProxyStep::Fail(ProxyError::InvalidHost)
    );
}

#[test]
fn a_hostname_with_tabs_spaces_or_letters_beyond_ascii_is_a_header_value() {
    for hostname in ["exam\tple.com", "exam ple.com", "b\u{fc}cher.example", ""] {
        assert_eq!(
            plan_forward(&record(hostname, Some("10.0.0.5")), "/foo"),
            ProxyStep::Forward(Target {
                uri: "http://10.0.0.5/foo".to_string(),
                host: HostPolicy::Explicit(hostname.to_string()),
            })
        );
    }
}

#[test]
fn the_uri_is_judged_before_the_host() {
    assert_eq!(
        plan_forward(&record("exam\nple.com", Some("10.0.0 .5")), "/foo"),
        ProxyStep::Fail(ProxyError::InvalidTarget)
    );
}

#[test]
fn decide_forward_follows_what_it_is_told() {
    let explicit = || Target {
        uri: "http://10.0.0.5/".to_string(),
        host: HostPolicy::Explicit("example.com".to_string()),
    };
    let derived =
        || Target { uri: "https://example.com/".to_string(), host: HostPolicy::FromTarget };
    assert_eq!(decide_forward(explicit(), true, true), ProxyStep::Forward(explicit()));
    assert_eq!(decide_forward(explicit(), true, false), ProxyStep::Fail(ProxyError::InvalidHost));
    assert_eq!(decide_forward(explicit(), false, true), ProxyStep::Fail(ProxyError::InvalidTarget));
    assert_eq!(decide_forward(explicit(), false, false), ProxyStep::Fail(ProxyError::InvalidTarget));
    assert_eq!(decide_forward(derived(), true, false), ProxyStep::Forward(derived()));
    assert_eq!(decide_forward(derived(), false, true), ProxyStep::Fail(ProxyError::InvalidTarget));
}

#[test]
fn an_upstream_response_is_relayed() {
    assert_eq!(handle_proxy_request(ProxyStage::Forwarded { delivered: true }, BASE), ProxyStep::Relay);
}

#[test]
fn an_upstream_failure_ends_the_request() {
    assert_eq!(
        handle_proxy_request(ProxyStage::Forwarded { delivered: false }, BASE),
        ProxyStep::Fail(ProxyError::Upstream)
    );
}

#[test]
fn a_request_that_was_given_up_is_answered_with_500() {
    assert_eq!(
        failure_reply(),
        Reply {
            status: 500,
            headers: Vec::new(),
            body: ReplyBody::Text("Internal Server Error".to_string()),
        }
    );
}

use backend::host::{extract_subdomain, routing_token, strip_port};

#[test]
fn strip_port_removes_a_numeric_port() {
    assert_eq!(strip_port("host:8080"), "host");
    assert_eq!(strip_port("example.com:1234"), "example.com");
}

#[test]
fn strip_port_keeps_a_host_without_port() {
    assert_eq!(strip_port("host"), "host");
    assert_eq!(strip_port("abc123.directdns.net"), "abc123.directdns.net");
}

#[test]
fn strip_port_keeps_a_suffix_that_is_not_numeric() {
    assert_eq!(strip_port("host:abc"), "host:abc");
    assert_eq!(strip_port("host:80a"), "host:80a");
    assert_eq!(strip_port("host:a80"), "host:a80");
    assert_eq!(strip_port("host:-1"), "host:-1");
    assert_eq!(strip_port("host: 80"), "host: 80");
}

#[test]
fn strip_port_takes_an_empty_port_for_a_port() {
    assert_eq!(strip_port("host:"), "host");
    assert_eq!(strip_port(":"), "");
}

#[test]
fn strip_port_looks_at_the_last_colon_only() {
    assert_eq!(strip_port("a:1:2"), "a:1");
    assert_eq!(strip_port("a:b:2"), "a:b");
    assert_eq!(strip_port("a:1:b"), "a:1:b");
    assert_eq!(strip_port("[::1]:8080"), "[::1]");
}

#[test]
fn strip_port_keeps_an_address_without_a_numeric_tail() {
    assert_eq!(strip_port("2001:db8::a"), "2001:db8::a");
    assert_eq!(strip_port("[2001:db8::1]"), "[2001:db8::1]");
}

#[test]
fn strip_port_of_the_empty_host_is_empty() {
    assert_eq!(strip_port(""), "");
}

#[test]
fn strip_port_of_a_bare_port() {
    assert_eq!(strip_port(":8080"), "");
    assert_eq!(strip_port("8080"), "8080");
}

#[test]
fn strip_port_counts_ascii_digits_only() {
    assert_eq!(strip_port("host:\u{0661}\u{0662}"), "host:\u{0661}\u{0662}");
    assert_eq!(strip_port("host:\u{ff18}\u{ff10}"), "host:\u{ff18}\u{ff10}");
}

#[test]
fn strip_port_cuts_at_characters_not_bytes() {
    assert_eq!(strip_port("b\u{fc}cher.example:443"), "b\u{fc}cher.example");
    assert_eq!(strip_port("\u{65e5}\u{672c}:80"), "\u{65e5}\u{672c}");
}

#[test]
fn extract_subdomain_of_the_apex_is_empty() {
    assert_eq!(extract_subdomain("directdns.net", "directdns.net"), Some(String::new()));
}

#[test]
fn extract_subdomain_gives_the_token() {
    assert_eq!(
        extract_subdomain("abc123.directdns.net", "directdns.net"),
        Some("abc123".to_string())
    );
}

#[test]
fn extract_subdomain_of_another_domain_is_none() {
    assert_eq!(extract_subdomain("other.com", "directdns.net"), None);
    assert_eq!(extract_subdomain("", "directdns.net"), None);
    assert_eq!(extract_subdomain("net", "directdns.net"), None);
}

#[test]
fn extract_subdomain_passes_several_labels_through() {
    assert_eq!(
        extract_subdomain("foo.bar.directdns.net", "directdns.net"),
        Some("foo.bar".to_string())
    );
}

#[test]
fn extract_subdomain_wants_the_dot_before_the_base() {
    assert_eq!(extract_subdomain("xdirectdns.net", "directdns.net"), None);
    assert_eq!(extract_subdomain("abc123directdns.net", "directdns.net"), None);
}

#[test]
fn extract_subdomain_of_a_bare_dot_is_empty() {
    assert_eq!(extract_subdomain(".directdns.net", "directdns.net"), Some(String::new()));
}

#[test]
fn extract_subdomain_compares_exactly() {
    assert_eq!(extract_subdomain("abc123.DirectDNS.net", "directdns.net"), None);
    assert_eq!(extract_subdomain("abc123.directdns.net.", "directdns.net"), None);
    assert_eq!(extract_subdomain("abc123.directdns.net:80", "directdns.net"), None);
}

#[test]
fn extract_subdomain_under_an_empty_base() {
    assert_eq!(extract_subdomain("", ""), Some(String::new()));
    assert_eq!(extract_subdomain("abc.", ""), Some("abc".to_string()));
    assert_eq!(extract_subdomain("abc", ""), None);
}

#[test]
fn extract_subdomain_cuts_at_characters_not_bytes() {
    assert_eq!(
        extract_subdomain("b\u{fc}cher.directdns.net", "directdns.net"),
        Some("b\u{fc}cher".to_string())
    );
    assert_eq!(
        extract_subdomain("abc.b\u{fc}cher.example", "b\u{fc}cher.example"),
        Some("abc".to_string())
    );
}

#[test]
fn routing_token_strips_the_port_first() {
    assert_eq!(
        routing_token("abc123.directdns.net:3000", "directdns.net"),
        Some("abc123".to_string())
    );
    assert_eq!(routing_token("abc123.directdns.net", "directdns.net"), Some("abc123".to_string()));
}

#[test]
fn routing_token_of_the_apex_is_none() {
    assert_eq!(routing_token("directdns.net", "directdns.net"), None);
    assert_eq!(routing_token("directdns.net:3000", "directdns.net"), None);
    assert_eq!(routing_token(".directdns.net", "directdns.net"), None);
}

#[test]
fn routing_token_of_another_domain_is_none() {
    assert_eq!(routing_token("other.com", "directdns.net"), None);
    assert_eq!(routing_token("", "directdns.net"), None);
    assert_eq!(routing_token("abc123.directdns.net:http", "directdns.net"), None);
}

//! Host parsing: from the addressing header of a request to the token that
//! names its routing record.

use vstd::prelude::*;
use crate::models::opt_chars;
use crate::text::chars_of;

verus! {

/// Whether `c` is one of the ten ASCII digits.
pub open spec fn is_ascii_digit(c: char) -> bool {
    '0' <= c && c <= '9'
}

/// Whether the colon that introduces a port stands at index `at` of `host`:
/// a colon after which only ASCII digits follow, possibly none.
pub open spec fn is_port_colon(host: Seq<char>, at: int) -> bool {
    &&& 0 <= at < host.len()
    &&& host[at] == ':'
    &&& forall|j: int| at < j < host.len() ==> is_ascii_digit(#[trigger] host[j])
}

/// `host` without its port: what stands before the port colon where there
/// is one, and `host` itself where there is none.
pub open spec fn without_port(host: Seq<char>) -> Seq<char> {
    if exists|at: int| is_port_colon(host, at) {
        host.take(choose|at: int| is_port_colon(host, at))
    } else {
        host
    }
}

/// A host has at most one port colon, and it is its last colon.
pub proof fn lemma_port_colon_is_last_colon(host: Seq<char>, at: int)
    requires
        is_port_colon(host, at),
    ensures
        forall|j: int| at < j < host.len() ==> host[j] != ':',
        forall|other: int| is_port_colon(host, other) ==> other == at,
{
    assert forall|j: int| at < j < host.len() implies host[j] != ':' by {
        assert(is_ascii_digit(host[j]));
    }
    assert forall|other: int| is_port_colon(host, other) implies other == at by {
        if other < at {
            assert(is_ascii_digit(host[at]));
        } else if at < other {
            assert(is_ascii_digit(host[other]));
        }
    }
}

/// Where the port colon stands at `at`, the host without its port is what
/// precedes it.
pub proof fn lemma_without_port_at(host: Seq<char>, at: int)
    requires
        is_port_colon(host, at),
    ensures
        without_port(host) == host.take(at),
{
    lemma_port_colon_is_last_colon(host, at);
}

/// A host in which a character other than a digit or a colon comes last,
/// or that holds no colon at all, has no port to strip.
pub proof fn lemma_without_port_unchanged(host: Seq<char>, stop: int)
    requires
        0 <= stop <= host.len(),
        forall|j: int| stop <= j < host.len() ==> host[j] != ':',
        stop > 0 ==> host[stop - 1] != ':' && !is_ascii_digit(host[stop - 1]),
    ensures
        without_port(host) == host,
{
    assert forall|at: int| !is_port_colon(host, at) by {
        if is_port_colon(host, at) {
            assert(at < stop - 1);
            assert(is_ascii_digit(host[stop - 1]));
        }
    }
}

/// Strips a trailing port from a host.
///
/// If the host holds a colon and every character after its last colon is
/// an ASCII digit, the result is what stands before that colon; otherwise
/// it is the host unchanged.
pub fn strip_port(host_with_port: &str) -> (host: &str)
    ensures
        host@ == without_port(host_with_port@),
{
    let chars = chars_of(host_with_port);
    let mut start: usize = chars.len();
    while start > 0 && '0' <= chars[start - 1] && chars[start - 1] <= '9'
        invariant
            start <= chars@.len(),
            forall|j: int| start <= j < chars@.len() ==> is_ascii_digit(#[trigger] chars@[j]),
        decreases start,
    {
        start -= 1;
    }
    if start > 0 && chars[start - 1] == ':' {
        proof {
            lemma_without_port_at(host_with_port@, start - 1);
        }
        host_with_port.substring_char(0, start - 1)
    } else {
        proof {
            assert forall|j: int| start <= j < chars@.len() implies chars@[j] != ':' by {
                assert(is_ascii_digit(chars@[j]));
            }
            lemma_without_port_unchanged(host_with_port@, start as int);
        }
        host_with_port
    }
}

/// The subdomain that `host` names under `base`: empty where `host` is
/// `base` itself, the part before `"." + base` where `host` ends so, and
/// none otherwise.
pub open spec fn subdomain_of(host: Seq<char>, base: Seq<char>) -> Option<Seq<char>> {
    if host == base {
        Some(Seq::empty())
    } else if (seq!['.'] + base).is_suffix_of(host) {
        Some(host.take(host.len() - base.len() - 1))
    } else {
        None
    }
}

/// A host that is a prefix, a dot and the base names that prefix.
pub proof fn lemma_subdomain_of_joined(prefix: Seq<char>, base: Seq<char>)
    ensures
        subdomain_of(prefix + seq!['.'] + base, base) == Some(prefix),
{
    let host = prefix + seq!['.'] + base;
    let tail = seq!['.'] + base;
    assert(host.len() == prefix.len() + 1 + base.len());
    assert(host.subrange(host.len() - tail.len(), host.len() as int) =~= tail);
    assert(host.take(host.len() - base.len() - 1) =~= prefix);
}

/// Whether `pattern` stands in `text` from index `at` on.
fn matches_at(text: &Vec<char>, at: usize, pattern: &Vec<char>) -> (found: bool)
    requires
        at + pattern@.len() <= text@.len(),
    ensures
        found == (text@.subrange(at as int, at + pattern@.len()) == pattern@),
{
    let size: usize = text.len();
    let mut i: usize = 0;
    while i < pattern.len()
        invariant
            at + pattern@.len() <= text@.len() == size,
            i <= pattern@.len(),
            forall|j: int| 0 <= j < i ==> text@[at + j] == pattern@[j],
        decreases pattern@.len() - i,
    {
        if text[at + i] != pattern[i] {
            assert(text@.subrange(at as int, at + pattern@.len())[i as int] != pattern@[i as int]);
            return false;
        }
        i += 1;
    }
    assert(text@.subrange(at as int, at + pattern@.len()) =~= pattern@);
    true
}

/// Extracts the subdomain of a host under a base domain.
///
/// A host equal to the base domain gives the empty string; a host that
/// ends with a dot and the base domain gives what stands before that dot,
/// dots included; any other host gives nothing.
pub fn extract_subdomain(host_header: &str, base_domain: &str) -> (subdomain: Option<String>)
    ensures
        opt_chars(subdomain) == subdomain_of(host_header@, base_domain@),
{
    let host = chars_of(host_header);
    let base = chars_of(base_domain);
    if host.len() == base.len() {
        if matches_at(&host, 0, &base) {
            assert(host@.subrange(0, base@.len() as int) == host@);
            Some(String::new())
        } else {
            assert(host@.subrange(0, base@.len() as int) == host@);
            None
        }
    } else if host.len() > base.len() {
        let cut: usize = host.len() - base.len() - 1;
        let ghost tail = seq!['.'] + base@;
        let ghost end = host@.subrange(cut as int, host@.len() as int);
        proof {
            assert(end.len() == tail.len());
            assert(end[0] == host@[cut as int]);
            assert(tail[0] == '.');
            assert(end.subrange(1, end.len() as int) == host@.subrange(cut + 1, cut + 1 + base@.len()));
            assert(tail.subrange(1, tail.len() as int) == base@);
        }
        if host[cut] == '.' && matches_at(&host, cut + 1, &base) {
            assert(end =~= tail);
            Some(host_header.substring_char(0, cut).to_owned())
        } else {
            None
        }
    } else {
        None
    }
}

/// The token that a request addresses: the non-empty subdomain that its
/// host header, port stripped, names under the base domain.
pub open spec fn routable_token(host_header: Seq<char>, base: Seq<char>) -> Option<Seq<char>> {
    match subdomain_of(without_port(host_header), base) {
        Some(token) => if token.len() > 0 {
            Some(token)
        } else {
            None
        },
        None => None,
    }
}

/// A host made of a token, a dot and the base domain addresses that
/// token, with a port or without, as long as neither the token nor the base
/// domain holds a colon.
pub proof fn lemma_token_host_is_routed(token: Seq<char>, base: Seq<char>, port: Seq<char>)
    requires
        token.len() > 0,
        forall|i: int| 0 <= i < token.len() ==> token[i] != ':',
        forall|i: int| 0 <= i < base.len() ==> base[i] != ':',
        forall|i: int| 0 <= i < port.len() ==> is_ascii_digit(#[trigger] port[i]),
    ensures
        routable_token(token + seq!['.'] + base, base) == Some(token),
        routable_token(token + seq!['.'] + base + seq![':'] + port, base) == Some(token),
{
    let host = token + seq!['.'] + base;
    let with_port = host + seq![':'] + port;
    lemma_subdomain_of_joined(token, base);
    lemma_without_port_unchanged(host, 0);
    assert(is_port_colon(with_port, host.len() as int)) by {
        assert forall|j: int| host.len() < j < with_port.len() implies is_ascii_digit(
            #[trigger] with_port[j],
        ) by {
            assert(with_port[j] == port[j - host.len() - 1]);
        }
    }
    lemma_without_port_at(with_port, host.len() as int);
    assert(with_port.take(host.len() as int) =~= host);
}

/// The routing token of a request, from its host header.
///
/// The apex host and any host outside the base domain address no record.
pub fn routing_token(host_header: &str, base_domain: &str) -> (token: Option<String>)
    ensures
        opt_chars(token) == routable_token(host_header@, base_domain@),
{
    let domain_only = strip_port(host_header);
    match extract_subdomain(domain_only, base_domain) {
        Some(subdomain) => {
            if subdomain.as_str().is_empty() {
                None
            } else {
                Some(subdomain)
            }
        },
        None => None,
    }
}

} // verus!

//! Routing resolution: from a routing record and the path of a request to
//! the target of the outbound call.

use vstd::prelude::*;
use crate::models::{Session, SessionView};
use crate::text::{join, starts_with};

verus! {

/// The start of a target that is reached over plain HTTP.
pub const HTTP_PREFIX: &'static str = "http://";

/// The start of a target that is reached over HTTPS.
pub const HTTPS_PREFIX: &'static str = "https://";

/// What becomes of the `Host` header of the outbound request.
#[derive(Debug, PartialEq, Eq)]
pub enum HostPolicy {
    /// The inbound header is removed and the transport derives a new one
    /// from the authority of the target.
    FromTarget,
    /// The header is set to this value.
    Explicit(String),
}

/// The mathematical content of a [`HostPolicy`].
pub enum HostPolicyView {
    FromTarget,
    Explicit(Seq<char>),
}

impl View for HostPolicy {
    type V = HostPolicyView;

    open spec fn view(&self) -> HostPolicyView {
        match self {
            HostPolicy::FromTarget => HostPolicyView::FromTarget,
            HostPolicy::Explicit(value) => HostPolicyView::Explicit(value@),
        }
    }
}

/// The target of an outbound call: the URI to request and the policy for
/// the `Host` header. Method, other headers and body of the inbound request
/// go out unchanged.
#[derive(Debug, PartialEq, Eq)]
pub struct Target {
    pub uri: String,
    pub host: HostPolicy,
}

/// The mathematical content of a [`Target`].
pub struct TargetView {
    pub uri: Seq<char>,
    pub host: HostPolicyView,
}

impl View for Target {
    type V = TargetView;

    open spec fn view(&self) -> TargetView {
        TargetView { uri: self.uri@, host: self.host@ }
    }
}

/// Whether a hostname already begins with `http://` or `https://`.
pub open spec fn has_scheme(hostname: Seq<char>) -> bool {
    HTTP_PREFIX@.is_prefix_of(hostname) || HTTPS_PREFIX@.is_prefix_of(hostname)
}

/// The target that a routing record and a path with query determine.
///
/// A record with an IP address is reached over plain HTTP at that address,
/// and the `Host` header names the record's hostname. A record without is
/// reached at its hostname, over HTTPS unless the hostname brings a scheme
/// of its own, and the transport derives the `Host` header.
pub open spec fn target_for(record: SessionView, path_and_query: Seq<char>) -> TargetView {
    match record.ip_address {
        Some(ip) => TargetView {
            uri: HTTP_PREFIX@ + ip + path_and_query,
            host: HostPolicyView::Explicit(record.hostname),
        },
        None => TargetView {
            uri: if has_scheme(record.hostname) {
                record.hostname + path_and_query
            } else {
                HTTPS_PREFIX@ + record.hostname + path_and_query
            },
            host: HostPolicyView::FromTarget,
        },
    }
}

/// A record with an IP address is always reached over plain HTTP at that
/// address, with the `Host` header set to its hostname.
pub proof fn lemma_address_is_reached_over_http(record: SessionView, path_and_query: Seq<char>)
    requires
        record.ip_address is Some,
    ensures
        target_for(record, path_and_query).uri == HTTP_PREFIX@ + record.ip_address->Some_0
            + path_and_query,
        target_for(record, path_and_query).host == HostPolicyView::Explicit(record.hostname),
{
}

/// A record without an IP address whose hostname brings no scheme is
/// always reached over HTTPS at its hostname, and the transport derives the
/// `Host` header.
pub proof fn lemma_hostname_is_reached_over_https(record: SessionView, path_and_query: Seq<char>)
    requires
        record.ip_address is None,
        !has_scheme(record.hostname),
    ensures
        target_for(record, path_and_query).uri == HTTPS_PREFIX@ + record.hostname + path_and_query,
        target_for(record, path_and_query).host == HostPolicyView::FromTarget,
{
}

/// Resolves the outbound target of a request for `session` whose path and
/// query are `path_and_query`.
pub fn resolve_target(session: &Session, path_and_query: &str) -> (target: Target)
    ensures
        target@ == target_for(session@, path_and_query@),
{
    match &session.ip_address {
        Some(ip) => {
            let origin = join(HTTP_PREFIX, ip.as_str());
            Target {
                uri: join(origin.as_str(), path_and_query),
                host: HostPolicy::Explicit(session.hostname.clone()),
            }
        },
        None => {
            let hostname = session.hostname.as_str();
            let uri = if starts_with(hostname, HTTP_PREFIX) || starts_with(hostname, HTTPS_PREFIX) {
                join(hostname, path_and_query)
            } else {
                let origin = join(HTTPS_PREFIX, hostname);
                join(origin.as_str(), path_and_query)
            };
            Target { uri, host: HostPolicy::FromTarget }
        },
    }
}

} // verus!

//! The proxy path, as the decisions of one request.
//!
//! A request passes through three stages. At each the caller hands in what
//! has happened and [`handle_proxy_request`] answers with the step to take:
//! look the token up, forward to a target, relay the upstream response,
//! reply, or fail. Looking up, forwarding and relaying are the caller's to
//! carry out.

use vstd::prelude::*;
use crate::host::{
    is_ascii_digit, is_port_colon, lemma_without_port_at, lemma_without_port_unchanged,
    routable_token, routing_token,
};
use crate::models::{opt_chars, NewSessionView, Session, SessionView};
use crate::registry::{
    after_insert, insert_outcome, lookup_view, record_of, Lookup, StorageError,
};
use crate::reply::{text_reply, Reply, ReplyView};
use crate::resolver::{resolve_target, target_for, HostPolicy, HostPolicyView, Target, TargetView};
use crate::trusted::{is_header_value, parses_as_header_value, parses_as_uri, uri_accepts};

verus! {

/// The body of the reply to a request that addresses no record.
pub const NOT_FOUND: &'static str = "Not found";

/// The body of the reply to a request that was given up.
pub const INTERNAL_SERVER_ERROR: &'static str = "Internal Server Error";

/// Why a request could not be forwarded. Each of these is logged and
/// answered with status 500; none is retried.
#[derive(Debug, Clone, Copy, PartialEq, Eq)]
pub enum ProxyError {
    /// The registry failed while it looked the token up.
    Storage(StorageError),
    /// The target of the record is no URI.
    InvalidTarget,
    /// The hostname of the record cannot be the value of a `Host` header.
    InvalidHost,
    /// The outbound call failed: no connection, no TLS session, no answer
    /// in time.
    Upstream,
}

/// Where a request stands, with what has just happened to it.
#[derive(Debug, PartialEq, Eq)]
pub enum ProxyStage {
    /// The request has arrived. `host` is the text of its `Host` header,
    /// `None` where it has none or one that is no text.
    Received { host: Option<String> },
    /// The registry has answered. `path_and_query` is that of the request,
    /// `None` where its URI has neither.
    LookedUp { found: Lookup, path_and_query: Option<String> },
    /// The outbound call has ended, with a response or without.
    Forwarded { delivered: bool },
}

/// The mathematical content of a [`ProxyStage`].
pub enum ProxyStageView {
    Received { host: Option<Seq<char>> },
    LookedUp { found: Result<Option<SessionView>, StorageError>, path_and_query: Option<Seq<char>> },
    Forwarded { delivered: bool },
}

impl View for ProxyStage {
    type V = ProxyStageView;

    open spec fn view(&self) -> ProxyStageView {
        match self {
            ProxyStage::Received { host } => ProxyStageView::Received { host: opt_chars(*host) },
            ProxyStage::LookedUp { found, path_and_query } => ProxyStageView::LookedUp {
                found: lookup_view(*found),
                path_and_query: opt_chars(*path_and_query),
            },
            ProxyStage::Forwarded { delivered } => ProxyStageView::Forwarded {
                delivered: *delivered,
            },
        }
    }
}

/// What to do next for a request.
#[derive(Debug, PartialEq, Eq)]
pub enum ProxyStep {
    /// Look this token up in the registry.
    Lookup { token: String },
    /// Send the request to this target, once, with its method, its body
    /// and its headers other than `Host` unchanged.
    Forward(Target),
    /// Hand the upstream response to the caller as it is: status, headers
    /// and body.
    Relay,
    /// Answer with this reply.
    Respond(Reply),
    /// Give up on the request for this reason.
    Fail(ProxyError),
}

/// The mathematical content of a [`ProxyStep`].
pub enum ProxyStepView {
    Lookup { token: Seq<char> },
    Forward(TargetView),
    Relay,
    Respond(ReplyView),
    Fail(ProxyError),
}

impl View for ProxyStep {
    type V = ProxyStepView;

    open spec fn view(&self) -> ProxyStepView {
        match self {
            ProxyStep::Lookup { token } => ProxyStepView::Lookup { token: token@ },
            ProxyStep::Forward(target) => ProxyStepView::Forward(target@),
            ProxyStep::Relay => ProxyStepView::Relay,
            ProxyStep::Respond(reply) => ProxyStepView::Respond(reply@),
            ProxyStep::Fail(error) => ProxyStepView::Fail(*error),
        }
    }
}

/// The reply to a request that addresses no record.
pub open spec fn not_found() -> ReplyView {
    text_reply(404, NOT_FOUND@)
}

/// The text that stands for a part of a request, empty where the request
/// has no such part.
pub open spec fn or_empty(text: Option<Seq<char>>) -> Seq<char> {
    match text {
        Some(chars) => chars,
        None => Seq::empty(),
    }
}

/// Whether the `Host` header that a target asks for can be sent.
pub open spec fn host_is_valid(target: TargetView) -> bool {
    match target.host {
        HostPolicyView::Explicit(value) => is_header_value(value),
        HostPolicyView::FromTarget => true,
    }
}

/// The step for a resolved target, given whether its URI and its `Host`
/// header were accepted: the URI is judged first.
pub open spec fn forward_step(target: TargetView, uri_accepted: bool, host_accepted: bool) -> ProxyStepView {
    if !uri_accepted {
        ProxyStepView::Fail(ProxyError::InvalidTarget)
    } else if target.host is Explicit && !host_accepted {
        ProxyStepView::Fail(ProxyError::InvalidHost)
    } else {
        ProxyStepView::Forward(target)
    }
}

/// The step for a request whose record was found.
pub open spec fn forward_of(record: SessionView, path_and_query: Seq<char>) -> ProxyStepView {
    let target = target_for(record, path_and_query);
    forward_step(target, uri_accepts(target.uri), host_is_valid(target))
}

/// The step that follows each stage of a request under the base domain
/// `base`.
///
/// A request whose host names no token under the base domain, or a token
/// that the registry does not know, is answered with 404. A record that is
/// found decides the target. An upstream response is relayed; a failure of
/// the registry or of the outbound call ends the request.
pub open spec fn proxy_step(stage: ProxyStageView, base: Seq<char>) -> ProxyStepView {
    match stage {
        ProxyStageView::Received { host } => match routable_token(or_empty(host), base) {
            Some(token) => ProxyStepView::Lookup { token },
            None => ProxyStepView::Respond(not_found()),
        },
        ProxyStageView::LookedUp { found, path_and_query } => match found {
            Err(error) => ProxyStepView::Fail(ProxyError::Storage(error)),
            Ok(None) => ProxyStepView::Respond(not_found()),
            Ok(Some(record)) => forward_of(record, or_empty(path_and_query)),
        },
        ProxyStageView::Forwarded { delivered } => if delivered {
            ProxyStepView::Relay
        } else {
            ProxyStepView::Fail(ProxyError::Upstream)
        },
    }
}

/// A record is routed as it was created: once the registry has agreed to
/// create a record, a request for its token is forwarded to the target that
/// the record's hostname and address determine, or fails where that target
/// cannot be called.
pub proof fn lemma_created_record_is_routed(
    records: Map<Seq<char>, SessionView>,
    new: NewSessionView,
    created_at: Option<i64>,
    path_and_query: Option<Seq<char>>,
    base: Seq<char>,
)
    requires
        insert_outcome(records, new) is Ok,
    ensures
        proxy_step(
            ProxyStageView::LookedUp {
                found: Ok(record_of(after_insert(records, new, created_at), new.token)),
                path_and_query,
            },
            base,
        ) == forward_of(new.stored(created_at), or_empty(path_and_query)),
{
}

/// A token that the registry does not know is answered with 404 "Not
/// found", whatever the request asks for.
pub proof fn lemma_unknown_token_not_found(
    records: Map<Seq<char>, SessionView>,
    token: Seq<char>,
    path_and_query: Option<Seq<char>>,
    base: Seq<char>,
)
    requires
        !records.contains_key(token),
    ensures
        proxy_step(
            ProxyStageView::LookedUp { found: Ok(record_of(records, token)), path_and_query },
            base,
        ) == ProxyStepView::Respond(text_reply(404, NOT_FOUND@)),
{
}

/// The apex host is never routed: a request to the base domain itself,
/// with a port or without, is answered with 404 "Not found".
pub proof fn lemma_apex_not_found(base: Seq<char>, port: Seq<char>)
    requires
        forall|i: int| 0 <= i < base.len() ==> base[i] != ':',
        forall|i: int| 0 <= i < port.len() ==> is_ascii_digit(#[trigger] port[i]),
    ensures
        proxy_step(ProxyStageView::Received { host: Some(base) }, base) == ProxyStepView::Respond(
            not_found(),
        ),
        proxy_step(ProxyStageView::Received { host: Some(base + seq![':'] + port) }, base)
            == ProxyStepView::Respond(not_found()),
{
    lemma_without_port_unchanged(base, 0);
    let with_port = base + seq![':'] + port;
    assert(is_port_colon(with_port, base.len() as int)) by {
        assert forall|j: int| base.len() < j < with_port.len() implies is_ascii_digit(
            #[trigger] with_port[j],
        ) by {
            assert(with_port[j] == port[j - base.len() - 1]);
        }
    }
    lemma_without_port_at(with_port, base.len() as int);
    assert(with_port.take(base.len() as int) =~= base);
}

/// Decides what to do with a resolved target, given whether its URI was
/// accepted and whether its `Host` header was.
pub fn decide_forward(target: Target, uri_accepted: bool, host_accepted: bool) -> (step: ProxyStep)
    ensures
        step@ == forward_step(target@, uri_accepted, host_accepted),
{
    if !uri_accepted {
        return ProxyStep::Fail(ProxyError::InvalidTarget);
    }
    let explicit = match &target.host {
        HostPolicy::Explicit(_) => true,
        HostPolicy::FromTarget => false,
    };
    if explicit && !host_accepted {
        ProxyStep::Fail(ProxyError::InvalidHost)
    } else {
        ProxyStep::Forward(target)
    }
}

/// Resolves the target of a request for `session` and has its URI and its
/// `Host` header checked.
pub fn plan_forward(session: &Session, path_and_query: &str) -> (step: ProxyStep)
    ensures
        step@ == forward_of(session@, path_and_query@),
{
    let target = resolve_target(session, path_and_query);
    let uri_accepted = parses_as_uri(target.uri.as_str());
    let host_accepted = match &target.host {
        HostPolicy::Explicit(value) => parses_as_header_value(value.as_str()),
        HostPolicy::FromTarget => true,
    };
    decide_forward(target, uri_accepted, host_accepted)
}

/// The text of an optional part of a request.
fn text_or_empty(text: &Option<String>) -> (chars: &str)
    ensures
        chars@ == or_empty(opt_chars(*text)),
{
    match text {
        Some(present) => present.as_str(),
        None => {
            proof {
                reveal_strlit("");
                assert(""@ =~= Seq::<char>::empty());
            }
            ""
        },
    }
}

/// Handles a request that is not for the creation endpoint: tells the step
/// that follows the given stage.
pub fn handle_proxy_request(stage: ProxyStage, base_domain: &str) -> (step: ProxyStep)
    ensures
        step@ == proxy_step(stage@, base_domain@),
{
    match stage {
        ProxyStage::Received { host } => {
            match routing_token(text_or_empty(&host), base_domain) {
                Some(token) => ProxyStep::Lookup { token },
                None => ProxyStep::Respond(Reply::text(404, NOT_FOUND)),
            }
        },
        ProxyStage::LookedUp { found, path_and_query } => {
            match found {
                Err(error) => ProxyStep::Fail(ProxyError::Storage(error)),
                Ok(None) => ProxyStep::Respond(Reply::text(404, NOT_FOUND)),
                Ok(Some(session)) => plan_forward(&session, text_or_empty(&path_and_query)),
            }
        },
        ProxyStage::Forwarded { delivered } => {
            if delivered {
                ProxyStep::Relay
            } else {
                ProxyStep::Fail(ProxyError::Upstream)
            }
        },
    }
}

/// The reply to a request that was given up.
pub fn failure_reply() -> (reply: Reply)
    ensures
        reply@ == text_reply(500, INTERNAL_SERVER_ERROR@),
{
    Reply::text(500, INTERNAL_SERVER_ERROR)
}

} // verus!

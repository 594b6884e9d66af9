//! The records that the routing core stores and exchanges.
//!
//! Every type has a view that replaces each string by the sequence of its
//! characters; contracts elsewhere in the crate are stated over these views.

use vstd::prelude::*;

verus! {

/// The characters of an optional string.
pub open spec fn opt_chars(s: Option<String>) -> Option<Seq<char>> {
    match s {
        Some(text) => Some(text@),
        None => None,
    }
}

/// The characters of an optional string slice.
pub open spec fn opt_str_chars(s: Option<&str>) -> Option<Seq<char>> {
    match s {
        Some(text) => Some(text@),
        None => None,
    }
}

/// A copy of an optional string.
pub fn clone_opt_string(s: &Option<String>) -> (copy: Option<String>)
    ensures
        opt_chars(copy) == opt_chars(*s),
{
    match s {
        Some(text) => Some(text.clone()),
        None => None,
    }
}

/// What a client sends to register a backend target.
#[derive(Debug, PartialEq, Eq)]
pub struct CreateRequest {
    pub hostname: String,
    pub ip_address: Option<String>,
}

/// The mathematical content of a [`CreateRequest`].
pub struct CreateRequestView {
    pub hostname: Seq<char>,
    pub ip_address: Option<Seq<char>>,
}

impl View for CreateRequest {
    type V = CreateRequestView;

    open spec fn view(&self) -> CreateRequestView {
        CreateRequestView { hostname: self.hostname@, ip_address: opt_chars(self.ip_address) }
    }
}

impl Clone for CreateRequest {
    fn clone(&self) -> (copy: CreateRequest)
        ensures
            copy@ == self@,
    {
        CreateRequest {
            hostname: self.hostname.clone(),
            ip_address: clone_opt_string(&self.ip_address),
        }
    }
}

/// What a client receives once its target is registered.
#[derive(Debug, PartialEq, Eq)]
pub struct CreateResponse {
    pub token: String,
    pub full_url: String,
    pub domain: String,
}

/// The mathematical content of a [`CreateResponse`].
pub struct CreateResponseView {
    pub token: Seq<char>,
    pub full_url: Seq<char>,
    pub domain: Seq<char>,
}

impl View for CreateResponse {
    type V = CreateResponseView;

    open spec fn view(&self) -> CreateResponseView {
        CreateResponseView { token: self.token@, full_url: self.full_url@, domain: self.domain@ }
    }
}

impl Clone for CreateResponse {
    fn clone(&self) -> (copy: CreateResponse)
        ensures
            copy@ == self@,
    {
        CreateResponse {
            token: self.token.clone(),
            full_url: self.full_url.clone(),
            domain: self.domain.clone(),
        }
    }
}

/// A routing record: the target that one token stands for.
///
/// A record with an `ip_address` is reached over plain HTTP at that
/// address; one without is reached over HTTPS at `hostname`. `created_at`
/// counts microseconds since the Unix epoch and is informational only.
#[derive(Debug, PartialEq, Eq)]
pub struct Session {
    pub token: String,
    pub hostname: String,
    pub ip_address: Option<String>,
    pub created_at: Option<i64>,
}

/// The mathematical content of a [`Session`].
pub struct SessionView {
    pub token: Seq<char>,
    pub hostname: Seq<char>,
    pub ip_address: Option<Seq<char>>,
    pub created_at: Option<i64>,
}

impl View for Session {
    type V = SessionView;

    open spec fn view(&self) -> SessionView {
        SessionView {
            token: self.token@,
            hostname: self.hostname@,
            ip_address: opt_chars(self.ip_address),
            created_at: self.created_at,
        }
    }
}

impl Clone for Session {
    fn clone(&self) -> (copy: Session)
        ensures
            copy@ == self@,
    {
        Session {
            token: self.token.clone(),
            hostname: self.hostname.clone(),
            ip_address: clone_opt_string(&self.ip_address),
            created_at: self.created_at,
        }
    }
}

/// The fields that a caller supplies for a new routing record; the store
/// adds the time of insertion.
#[derive(Debug, Clone, Copy, PartialEq, Eq)]
pub struct NewSession<'a> {
    pub token: &'a str,
    pub hostname: &'a str,
    pub ip_address: Option<&'a str>,
}

/// The mathematical content of a [`NewSession`].
pub struct NewSessionView {
    pub token: Seq<char>,
    pub hostname: Seq<char>,
    pub ip_address: Option<Seq<char>>,
}

impl<'a> View for NewSession<'a> {
    type V = NewSessionView;

    open spec fn view(&self) -> NewSessionView {
        NewSessionView {
            token: self.token@,
            hostname: self.hostname@,
            ip_address: opt_str_chars(self.ip_address),
        }
    }
}

impl NewSessionView {
    /// The record that results when the store accepts these fields at the
    /// time `created_at`.
    pub open spec fn stored(self, created_at: Option<i64>) -> SessionView {
        SessionView {
            token: self.token,
            hostname: self.hostname,
            ip_address: self.ip_address,
            created_at,
        }
    }
}

} // verus!

//! The target registry: the mapping from token to routing record.
//!
//! [`Registry`] keeps the records in memory. A store elsewhere that is to
//! take its place owes its callers the same contract: a record is created
//! under a token that no record has yet, is seen by every later lookup, and
//! is never changed or removed.

use vstd::prelude::*;
use crate::models::{opt_str_chars, NewSession, NewSessionView, Session, SessionView};
use crate::text::str_eq;

verus! {

/// The number of characters that a stored token, hostname or IP address
/// may have at most.
pub const MAX_FIELD_LEN: usize = 255;

/// Why the registry did not do what was asked.
#[derive(Debug, Clone, Copy, PartialEq, Eq)]
pub enum StorageError {
    /// A record with this token exists already.
    DuplicateToken,
    /// A field is longer than the store can hold.
    FieldTooLong,
    /// The store could not be reached, or failed while it worked.
    Unavailable,
}

/// What a lookup hands back.
pub type Lookup = Result<Option<Session>, StorageError>;

/// The mathematical content of a [`Lookup`].
pub open spec fn lookup_view(found: Lookup) -> Result<Option<SessionView>, StorageError> {
    match found {
        Ok(Some(session)) => Ok(Some(session@)),
        Ok(None) => Ok(None),
        Err(error) => Err(error),
    }
}

/// Whether each field of a new record is within the store's bound.
pub open spec fn fits_store(new: NewSessionView) -> bool {
    &&& new.token.len() <= MAX_FIELD_LEN
    &&& new.hostname.len() <= MAX_FIELD_LEN
    &&& new.ip_address matches Some(ip) ==> ip.len() <= MAX_FIELD_LEN
}

/// What the registry answers when asked to create `new`: a record that
/// does not fit is refused, then one whose token is taken.
pub open spec fn insert_outcome(records: Map<Seq<char>, SessionView>, new: NewSessionView) -> Result<
    (),
    StorageError,
> {
    if !fits_store(new) {
        Err(StorageError::FieldTooLong)
    } else if records.contains_key(new.token) {
        Err(StorageError::DuplicateToken)
    } else {
        Ok(())
    }
}

/// The records after the registry was asked to create `new` at the time
/// `created_at`: one more where it agreed, the same as before where it
/// refused.
pub open spec fn after_insert(
    records: Map<Seq<char>, SessionView>,
    new: NewSessionView,
    created_at: Option<i64>,
) -> Map<Seq<char>, SessionView> {
    if insert_outcome(records, new) is Ok {
        records.insert(new.token, new.stored(created_at))
    } else {
        records
    }
}

/// The record that stands under `token`, if there is one.
pub open spec fn record_of(records: Map<Seq<char>, SessionView>, token: Seq<char>) -> Option<
    SessionView,
> {
    if records.contains_key(token) {
        Some(records[token])
    } else {
        None
    }
}

/// What holds of the records of every registry: each stands under its own
/// token and is within the store's bound.
pub open spec fn keyed_by_token(records: Map<Seq<char>, SessionView>) -> bool {
    forall|token: Seq<char>| #[trigger]
        records.contains_key(token) ==> {
            &&& records[token].token == token
            &&& records[token].token.len() <= MAX_FIELD_LEN
            &&& records[token].hostname.len() <= MAX_FIELD_LEN
            &&& records[token].ip_address matches Some(ip) ==> ip.len() <= MAX_FIELD_LEN
        }
}

/// Read after write: once the registry has agreed to create a record, a
/// lookup of its token finds that record.
pub proof fn lemma_read_after_write(
    records: Map<Seq<char>, SessionView>,
    new: NewSessionView,
    created_at: Option<i64>,
)
    requires
        insert_outcome(records, new) is Ok,
    ensures
        record_of(after_insert(records, new, created_at), new.token) == Some(
            new.stored(created_at),
        ),
{
}

/// Records are immutable: whatever the registry is asked to create, and
/// whether it agrees or refuses, a record that it holds is found unchanged
/// afterwards.
pub proof fn lemma_records_are_kept(
    records: Map<Seq<char>, SessionView>,
    new: NewSessionView,
    created_at: Option<i64>,
    token: Seq<char>,
)
    requires
        records.contains_key(token),
    ensures
        record_of(after_insert(records, new, created_at), token) == record_of(records, token),
{
}

/// A collision is refused: asked to create a record under a token that is
/// taken, the registry answers with an error and stays as it was.
pub proof fn lemma_collision_is_refused(
    records: Map<Seq<char>, SessionView>,
    new: NewSessionView,
    created_at: Option<i64>,
)
    requires
        records.contains_key(new.token),
    ensures
        insert_outcome(records, new) is Err,
        after_insert(records, new, created_at) == records,
{
}

/// Creation keeps the registry in order: if each record stood under its own
/// token and within the bound before, so it does afterwards.
pub proof fn lemma_insert_keeps_order(
    records: Map<Seq<char>, SessionView>,
    new: NewSessionView,
    created_at: Option<i64>,
)
    requires
        keyed_by_token(records),
    ensures
        keyed_by_token(after_insert(records, new, created_at)),
{
    let after = after_insert(records, new, created_at);
    assert forall|token: Seq<char>| #[trigger] after.contains_key(token) implies {
        &&& after[token].token == token
        &&& after[token].token.len() <= MAX_FIELD_LEN
        &&& after[token].hostname.len() <= MAX_FIELD_LEN
        &&& after[token].ip_address matches Some(ip) ==> ip.len() <= MAX_FIELD_LEN
    } by {
        if token != new.token || insert_outcome(records, new) is Err {
            assert(records.contains_key(token));
        }
    }
}

/// A target registry in memory.
#[derive(Debug)]
pub struct Registry {
    sessions: Vec<Session>,
}

impl View for Registry {
    type V = Map<Seq<char>, SessionView>;

    /// The records of the registry, each under its token.
    closed spec fn view(&self) -> Map<Seq<char>, SessionView> {
        Map::new(
            |token: Seq<char>| exists|i: int| self.holds_at(token, i),
            |token: Seq<char>| self.sessions@[choose|i: int| self.holds_at(token, i)]@,
        )
    }
}

impl Registry {
    /// Whether the record at index `i` has the given token.
    spec fn holds_at(self, token: Seq<char>, i: int) -> bool {
        0 <= i < self.sessions@.len() && self.sessions@[i]@.token == token
    }

    /// No token occurs twice, and every record is within the store's bound.
    #[verifier::type_invariant]
    spec fn well_formed(self) -> bool {
        &&& forall|i: int, j: int|
            0 <= i < j < self.sessions@.len() ==> (#[trigger] self.sessions@[i])@.token != (
            #[trigger] self.sessions@[j])@.token
        &&& forall|i: int|
            0 <= i < self.sessions@.len() ==> {
                let record = (#[trigger] self.sessions@[i])@;
                &&& record.token.len() <= MAX_FIELD_LEN
                &&& record.hostname.len() <= MAX_FIELD_LEN
                &&& record.ip_address matches Some(ip) ==> ip.len() <= MAX_FIELD_LEN
            }
    }

    /// In a well-formed registry the record at index `i` is the one that
    /// the view holds under its token.
    proof fn lemma_view_at(self, i: int)
        requires
            self.well_formed(),
            0 <= i < self.sessions@.len(),
        ensures
            self@.contains_key(self.sessions@[i]@.token),
            self@[self.sessions@[i]@.token] == self.sessions@[i]@,
    {
        let token = self.sessions@[i]@.token;
        assert(self.holds_at(token, i));
        let chosen = choose|k: int| self.holds_at(token, k);
        assert(self.holds_at(token, chosen));
        assert(chosen == i);
    }

    /// The records of a well-formed registry stand under their own tokens.
    proof fn lemma_keyed_by_token(self)
        requires
            self.well_formed(),
        ensures
            keyed_by_token(self@),
    {
        assert forall|token: Seq<char>| #[trigger] self@.contains_key(token) implies {
            &&& self@[token].token == token
            &&& self@[token].token.len() <= MAX_FIELD_LEN
            &&& self@[token].hostname.len() <= MAX_FIELD_LEN
            &&& self@[token].ip_address matches Some(ip) ==> ip.len() <= MAX_FIELD_LEN
        } by {
            let i = choose|i: int| self.holds_at(token, i);
            assert(self.holds_at(token, i));
            self.lemma_view_at(i);
        }
    }

    /// A registry without records.
    pub fn new() -> (registry: Registry)
        ensures
            registry@ == Map::<Seq<char>, SessionView>::empty(),
            keyed_by_token(registry@),
    {
        let registry = Registry { sessions: Vec::new() };
        assert(registry@ =~= Map::<Seq<char>, SessionView>::empty());
        registry
    }

    /// The index of the record with the given token, if there is one.
    fn position(&self, token: &str) -> (at: Option<usize>)
        ensures
            match at {
                Some(i) => self.holds_at(token@, i as int),
                None => forall|i: int| !self.holds_at(token@, i),
            },
    {
        let mut i: usize = 0;
        while i < self.sessions.len()
            invariant
                i <= self.sessions@.len(),
                forall|k: int| 0 <= k < i ==> !self.holds_at(token@, k),
            decreases self.sessions@.len() - i,
        {
            if str_eq(self.sessions[i].token.as_str(), token) {
                return Some(i);
            }
            i += 1;
        }
        None
    }

    /// Creates the record `new` at the time `created_at`, unless it does
    /// not fit or its token is taken.
    pub fn store(&mut self, new: &NewSession, created_at: Option<i64>) -> (result: Result<
        (),
        StorageError,
    >)
        ensures
            result == insert_outcome(old(self)@, new@),
            final(self)@ == after_insert(old(self)@, new@, created_at),
            keyed_by_token(final(self)@),
    {
        proof {
            use_type_invariant(&*self);
            self.lemma_keyed_by_token();
        }
        if new.token.unicode_len() > MAX_FIELD_LEN || new.hostname.unicode_len() > MAX_FIELD_LEN {
            return Err(StorageError::FieldTooLong);
        }
        let ip_address = match new.ip_address {
            Some(ip) => {
                if ip.unicode_len() > MAX_FIELD_LEN {
                    return Err(StorageError::FieldTooLong);
                }
                Some(ip.to_owned())
            },
            None => None,
        };
        match self.position(new.token) {
            Some(_) => Err(StorageError::DuplicateToken),
            None => {
                let ghost before = *self;
                let record = Session {
                    token: new.token.to_owned(),
                    hostname: new.hostname.to_owned(),
                    ip_address,
                    created_at,
                };
                assert(record@ == new@.stored(created_at));
                // The records are taken out, extended and put back, so that
                // the registry is well formed whenever it holds them.
                let mut sessions: Vec<Session> = Vec::new();
                core::mem::swap(&mut self.sessions, &mut sessions);
                sessions.push(record);
                proof {
                    let last = before.sessions@.len() as int;
                    assert forall|i: int, j: int| 0 <= i < j < sessions@.len() implies (
                    #[trigger] sessions@[i])@.token != (#[trigger] sessions@[j])@.token by {
                        if j == last {
                            assert(!before.holds_at(new@.token, i));
                        }
                    }
                }
                core::mem::swap(&mut self.sessions, &mut sessions);
                proof {
                    let after = *self;
                    let last = before.sessions@.len() as int;
                    assert(after.sessions@ == before.sessions@.push(record));
                    assert forall|token: Seq<char>|
                        after@.contains_key(token) == before@.insert(
                            new@.token,
                            record@,
                        ).contains_key(token) by {
                        if before@.contains_key(token) {
                            let i = choose|i: int| before.holds_at(token, i);
                            assert(after.holds_at(token, i));
                        }
                        if token == new@.token {
                            assert(after.holds_at(token, last));
                        }
                        if after@.contains_key(token) && token != new@.token {
                            let i = choose|i: int| after.holds_at(token, i);
                            assert(before.holds_at(token, i));
                        }
                    }
                    assert forall|token: Seq<char>| after@.contains_key(token) implies after@[token]
                        == before@.insert(new@.token, record@)[token] by {
                        let i = choose|i: int| after.holds_at(token, i);
                        after.lemma_view_at(i);
                        if i < last {
                            before.lemma_view_at(i);
                        }
                    }
                    assert(after@ =~= before@.insert(new@.token, record@));
                    after.lemma_keyed_by_token();
                }
                Ok(())
            },
        }
    }

    /// Looks up the record under `token`.
    pub fn lookup(&self, token: &str) -> (found: Option<Session>)
        ensures
            (match found {
                Some(session) => Some(session@),
                None => None,
            }) == record_of(self@, token@),
            keyed_by_token(self@),
    {
        proof {
            use_type_invariant(self);
            self.lemma_keyed_by_token();
        }
        match self.position(token) {
            Some(i) => {
                proof {
                    self.lemma_view_at(i as int);
                }
                Some(self.sessions[i].clone())
            },
            None => None,
        }
    }
}

/// Inserts a new record into the registry: the routing target `hostname`,
/// with `ip_address` where it is to be reached by address, under `token`.
///
/// `created_at` is the time of insertion in microseconds since the Unix
/// epoch, where the caller has a clock. The registry refuses a record that
/// does not fit its bound and one whose token is taken, and is then
/// unchanged; a record that it holds stays as it is.
pub fn insert_session(
    registry: &mut Registry,
    token: &str,
    hostname: &str,
    ip_address: Option<&str>,
    created_at: Option<i64>,
) -> (result: Result<(), StorageError>)
    ensures
        result == insert_outcome(
            old(registry)@,
            NewSessionView { token: token@, hostname: hostname@, ip_address: opt_str_chars(ip_address) },
        ),
        final(registry)@ == after_insert(
            old(registry)@,
            NewSessionView { token: token@, hostname: hostname@, ip_address: opt_str_chars(ip_address) },
            created_at,
        ),
        keyed_by_token(final(registry)@),
{
    let new_sess = NewSession { token, hostname, ip_address };
    registry.store(&new_sess, created_at)
}

/// Looks up the record under a token. A token that no record has is no
/// error: the answer is then `Ok(None)`. A registry in memory always
/// answers.
pub fn get_session_by_token(registry: &Registry, the_token: &str) -> (found: Lookup)
    ensures
        lookup_view(found) == Ok::<Option<SessionView>, StorageError>(
            record_of(registry@, the_token@),
        ),
        keyed_by_token(registry@),
{
    Ok(registry.lookup(the_token))
}

} // verus!

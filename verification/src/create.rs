//! The creation endpoint, as the decisions of one request.
//!
//! A creation request is received, validated, given a token, persisted and
//! answered, or answered with an error as soon as one of these fails. At
//! each stage the caller hands in what has happened and [`handle_create`]
//! answers with the step to take. Reading the body and writing the record
//! are the caller's to carry out.

use vstd::prelude::*;
use crate::host::{lemma_token_host_is_routed, routable_token};
use crate::models::{
    opt_chars, CreateRequest, CreateRequestView, CreateResponse, CreateResponseView,
    NewSessionView, SessionView,
};
use crate::registry::{after_insert, insert_outcome, StorageError};
use crate::reply::{
    cors_header_list, cors_headers, cors_response, lemma_with_cors_fresh,
    lemma_with_header_fresh, text_reply, HeaderView, Reply, ReplyBody, ReplyBodyView, ReplyView,
    CONTENT_TYPE, JSON_CONTENT_TYPE,
};
use crate::text::{join, str_eq};
use crate::trusted::{is_lower_hex, is_random_uuid_text, random_uuid_text};

verus! {

/// The number of characters of a token.
pub const TOKEN_LEN: usize = 8;

/// The method of a preflight request.
pub const OPTIONS: &'static str = "OPTIONS";

/// The method of a creation request.
pub const POST: &'static str = "POST";

/// The body of the reply to a request with another method.
pub const METHOD_NOT_ALLOWED: &'static str = "Method not allowed";

/// The body of the reply to a request whose body could not be read.
pub const INVALID_BODY: &'static str = "Invalid body";

/// The body of the reply to a request whose body is not the JSON expected.
pub const INVALID_JSON: &'static str = "Invalid JSON";

/// The body of the reply to a request that the registry refused.
pub const INTERNAL_DB_ERROR: &'static str = "Internal DB Error";

/// What reading the body of a creation request gave.
#[derive(Debug, PartialEq, Eq)]
pub enum Payload {
    /// The body could not be read to its end.
    Unreadable,
    /// The body is not the JSON form of a [`CreateRequest`].
    Malformed,
    /// The body said this.
    Parsed(CreateRequest),
}

/// The mathematical content of a [`Payload`].
pub enum PayloadView {
    Unreadable,
    Malformed,
    Parsed(CreateRequestView),
}

impl View for Payload {
    type V = PayloadView;

    open spec fn view(&self) -> PayloadView {
        match self {
            Payload::Unreadable => PayloadView::Unreadable,
            Payload::Malformed => PayloadView::Malformed,
            Payload::Parsed(request) => PayloadView::Parsed(request@),
        }
    }
}

/// Where a creation request stands, with what has just happened to it.
#[derive(Debug, PartialEq, Eq)]
pub enum CreateStage {
    /// The request has arrived, with this method.
    Received { method: String },
    /// Its body has been read, or could not be.
    BodyRead { payload: Payload },
    /// The registry has answered the insertion under `token`.
    Stored { token: String, result: Result<(), StorageError> },
}

/// The mathematical content of a [`CreateStage`].
pub enum CreateStageView {
    Received { method: Seq<char> },
    BodyRead { payload: PayloadView },
    Stored { token: Seq<char>, result: Result<(), StorageError> },
}

impl View for CreateStage {
    type V = CreateStageView;

    open spec fn view(&self) -> CreateStageView {
        match self {
            CreateStage::Received { method } => CreateStageView::Received { method: method@ },
            CreateStage::BodyRead { payload } => CreateStageView::BodyRead { payload: payload@ },
            CreateStage::Stored { token, result } => CreateStageView::Stored {
                token: token@,
                result: *result,
            },
        }
    }
}

/// What to do next for a creation request.
#[derive(Debug, PartialEq, Eq)]
pub enum CreateStep {
    /// Read the body and parse it.
    ReadBody,
    /// Insert this record into the registry.
    Insert { token: String, hostname: String, ip_address: Option<String> },
    /// Answer with this reply.
    Respond(Reply),
}

/// The mathematical content of a [`CreateStep`].
pub enum CreateStepView {
    ReadBody,
    Insert { token: Seq<char>, hostname: Seq<char>, ip_address: Option<Seq<char>> },
    Respond(ReplyView),
}

impl View for CreateStep {
    type V = CreateStepView;

    open spec fn view(&self) -> CreateStepView {
        match self {
            CreateStep::ReadBody => CreateStepView::ReadBody,
            CreateStep::Insert { token, hostname, ip_address } => CreateStepView::Insert {
                token: token@,
                hostname: hostname@,
                ip_address: opt_chars(*ip_address),
            },
            CreateStep::Respond(reply) => CreateStepView::Respond(reply@),
        }
    }
}

/// Whether `token` has the form of a generated token: eight lower-case
/// hexadecimal digits.
pub open spec fn is_token(token: Seq<char>) -> bool {
    &&& token.len() == TOKEN_LEN
    &&& forall|i: int| 0 <= i < token.len() ==> is_lower_hex(#[trigger] token[i])
}

/// The token that is cut from the text of a UUID: its first eight
/// characters.
pub open spec fn token_of(uuid_text: Seq<char>) -> Seq<char> {
    uuid_text.take(TOKEN_LEN as int)
}

/// The reply to a preflight request.
pub open spec fn preflight_reply() -> ReplyView {
    ReplyView { status: 200, headers: cors_header_list(), body: ReplyBodyView::Empty }
}

/// What the client is told of a record created under `token`.
pub open spec fn created(token: Seq<char>, base: Seq<char>) -> CreateResponseView {
    CreateResponseView { token, full_url: token + seq!['.'] + base, domain: base }
}

/// The reply to a creation request that succeeded.
pub open spec fn created_reply(token: Seq<char>, base: Seq<char>) -> ReplyView {
    ReplyView {
        status: 200,
        headers: seq![HeaderView { name: CONTENT_TYPE@, value: JSON_CONTENT_TYPE@ }]
            + cors_header_list(),
        body: ReplyBodyView::Json(created(token, base)),
    }
}

/// The step that follows each stage of a creation request under the base
/// domain `base`, where `token` is the token that is generated for it.
///
/// `OPTIONS` is answered as a preflight and any method but `POST` with 405.
/// A body that cannot be read or parsed is answered with 400. A request
/// that parses is inserted under the token. A refusal of the registry is
/// answered with 500, its agreement with the public address of the target.
pub open spec fn create_step(stage: CreateStageView, token: Seq<char>, base: Seq<char>) -> CreateStepView {
    match stage {
        CreateStageView::Received { method } => if method == OPTIONS@ {
            CreateStepView::Respond(preflight_reply())
        } else if method != POST@ {
            CreateStepView::Respond(text_reply(405, METHOD_NOT_ALLOWED@))
        } else {
            CreateStepView::ReadBody
        },
        CreateStageView::BodyRead { payload } => match payload {
            PayloadView::Unreadable => CreateStepView::Respond(text_reply(400, INVALID_BODY@)),
            PayloadView::Malformed => CreateStepView::Respond(text_reply(400, INVALID_JSON@)),
            PayloadView::Parsed(request) => CreateStepView::Insert {
                token,
                hostname: request.hostname,
                ip_address: request.ip_address,
            },
        },
        CreateStageView::Stored { token: stored, result } => match result {
            Err(_) => CreateStepView::Respond(text_reply(500, INTERNAL_DB_ERROR@)),
            Ok(_) => CreateStepView::Respond(created_reply(stored, base)),
        },
    }
}

/// A collision surfaces as status 500 and overwrites nothing: where the
/// token of a creation request is taken, the registry refuses and stays as
/// it was, and the request is answered with 500 "Internal DB Error".
pub proof fn lemma_collision_surfaces(
    records: Map<Seq<char>, SessionView>,
    new: NewSessionView,
    created_at: Option<i64>,
    base: Seq<char>,
)
    requires
        records.contains_key(new.token),
    ensures
        after_insert(records, new, created_at) == records,
        forall|token: Seq<char>|
            #[trigger] create_step(
                CreateStageView::Stored { token: new.token, result: insert_outcome(records, new) },
                token,
                base,
            ) == CreateStepView::Respond(text_reply(500, INTERNAL_DB_ERROR@)),
{
}

/// The address handed out for a new record routes back to it: a request
/// whose host is the `full_url` of the reply addresses the token under which
/// the record was created.
pub proof fn lemma_created_address_routes_back(token: Seq<char>, base: Seq<char>)
    requires
        is_token(token),
        forall|i: int| 0 <= i < base.len() ==> base[i] != ':',
    ensures
        routable_token(created(token, base).full_url, base) == Some(token),
{
    assert forall|i: int| 0 <= i < token.len() implies token[i] != ':' by {
        assert(is_lower_hex(token[i]));
    }
    lemma_token_host_is_routed(token, base, Seq::empty());
}

/// The first eight characters of a random UUID form a token.
pub proof fn lemma_token_of_uuid(uuid_text: Seq<char>)
    requires
        is_random_uuid_text(uuid_text),
    ensures
        is_token(token_of(uuid_text)),
{
    let token = token_of(uuid_text);
    assert forall|i: int| 0 <= i < token.len() implies is_lower_hex(#[trigger] token[i]) by {
        assert(token[i] == uuid_text[i]);
    }
}

/// Cuts the token from the text of a UUID.
pub fn short_token(uuid_text: &str) -> (token: String)
    requires
        uuid_text@.len() >= TOKEN_LEN,
    ensures
        token@ == token_of(uuid_text@),
{
    uuid_text.substring_char(0, TOKEN_LEN).to_owned()
}

/// Plans the insertion of a request that parsed, under the token cut from
/// the text of a UUID.
pub fn plan_insert(request: CreateRequest, uuid_text: &str) -> (step: CreateStep)
    requires
        uuid_text@.len() >= TOKEN_LEN,
    ensures
        step@ == (CreateStepView::Insert {
            token: token_of(uuid_text@),
            hostname: request@.hostname,
            ip_address: request@.ip_address,
        }),
{
    CreateStep::Insert {
        token: short_token(uuid_text),
        hostname: request.hostname,
        ip_address: request.ip_address,
    }
}

/// Decides on the method of a creation request.
pub fn check_method(method: &str) -> (step: CreateStep)
    ensures
        step@ == if method@ == OPTIONS@ {
            CreateStepView::Respond(preflight_reply())
        } else if method@ != POST@ {
            CreateStepView::Respond(text_reply(405, METHOD_NOT_ALLOWED@))
        } else {
            CreateStepView::ReadBody
        },
{
    if str_eq(method, OPTIONS) {
        let reply = cors_response(Reply::new(ReplyBody::Empty));
        proof {
            lemma_with_cors_fresh(Seq::empty());
            assert(Seq::<HeaderView>::empty() + cors_header_list() =~= cors_header_list());
        }
        CreateStep::Respond(reply)
    } else if !str_eq(method, POST) {
        CreateStep::Respond(Reply::text(405, METHOD_NOT_ALLOWED))
    } else {
        CreateStep::ReadBody
    }
}

/// Answers a creation request once the registry has answered: a refusal
/// with 500, an agreement with the public address of the new target.
pub fn conclude(token: String, result: Result<(), StorageError>, base_domain: &str) -> (reply: Reply)
    ensures
        reply@ == match result {
            Err(_) => text_reply(500, INTERNAL_DB_ERROR@),
            Ok(_) => created_reply(token@, base_domain@),
        },
{
    match result {
        Err(_) => Reply::text(500, INTERNAL_DB_ERROR),
        Ok(_) => {
            let label = join(token.as_str(), ".");
            let full_url = join(label.as_str(), base_domain);
            proof {
                reveal_strlit(".");
                assert("."@ =~= seq!['.']);
            }
            let body = ReplyBody::Json(
                CreateResponse { token, full_url, domain: base_domain.to_owned() },
            );
            let mut reply = Reply::new(body);
            reply.set_header(CONTENT_TYPE, JSON_CONTENT_TYPE);
            cors_headers(&mut reply);
            proof {
                let content_type = seq![
                    HeaderView { name: CONTENT_TYPE@, value: JSON_CONTENT_TYPE@ },
                ];
                lemma_with_header_fresh(Seq::empty(), CONTENT_TYPE@, JSON_CONTENT_TYPE@);
                assert(Seq::<HeaderView>::empty().push(content_type[0]) =~= content_type);
                reveal_strlit("Content-Type");
                reveal_strlit("Access-Control-Allow-Origin");
                reveal_strlit("Access-Control-Allow-Methods");
                reveal_strlit("Access-Control-Allow-Headers");
                lemma_with_cors_fresh(content_type);
            }
            reply
        },
    }
}

/// Handles a request for the creation endpoint: tells the step that follows
/// the given stage.
///
/// The token of a request that parsed is cut from a random UUID, so the
/// contract leaves open which token it is and says what form it has.
pub fn handle_create(stage: CreateStage, base_domain: &str) -> (step: CreateStep)
    ensures
        exists|token: Seq<char>|
            is_token(token) && step@ == #[trigger] create_step(stage@, token, base_domain@),
{
    // Where no token is generated the step is the same for every token;
    // this one stands for them all.
    let ghost zeros = Seq::new(TOKEN_LEN as nat, |i: int| '0');
    assert(is_token(zeros));
    match stage {
        CreateStage::Received { method } => {
            let step = check_method(method.as_str());
            assert(step@ == create_step(stage@, zeros, base_domain@));
            step
        },
        CreateStage::BodyRead { payload } => {
            match payload {
                Payload::Unreadable => {
                    let step = CreateStep::Respond(Reply::text(400, INVALID_BODY));
                    assert(step@ == create_step(stage@, zeros, base_domain@));
                    step
                },
                Payload::Malformed => {
                    let step = CreateStep::Respond(Reply::text(400, INVALID_JSON));
                    assert(step@ == create_step(stage@, zeros, base_domain@));
                    step
                },
                Payload::Parsed(request) => {
                    let uuid_text = random_uuid_text();
                    let step = plan_insert(request, uuid_text.as_str());
                    proof {
                        lemma_token_of_uuid(uuid_text@);
                        assert(step@ == create_step(stage@, token_of(uuid_text@), base_domain@));
                    }
                    step
                },
            }
        },
        CreateStage::Stored { token, result } => {
            let step = CreateStep::Respond(conclude(token, result, base_domain));
            assert(step@ == create_step(stage@, zeros, base_domain@));
            step
        },
    }
}

} // verus!

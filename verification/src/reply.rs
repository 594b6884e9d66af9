//! Replies that the routing core produces itself, as plain values: a
//! status, a list of headers and a body.

use vstd::prelude::*;
use crate::models::{CreateResponse, CreateResponseView};
use crate::text::chars_of;

verus! {

/// The name of the header that says which origins may call.
pub const ALLOW_ORIGIN: &'static str = "Access-Control-Allow-Origin";

/// Every origin may call.
pub const ALLOW_ORIGIN_VALUE: &'static str = "*";

/// The name of the header that says which methods a caller may use.
pub const ALLOW_METHODS: &'static str = "Access-Control-Allow-Methods";

/// The methods that the creation endpoint takes.
pub const ALLOW_METHODS_VALUE: &'static str = "POST, OPTIONS";

/// The name of the header that says which headers a caller may send.
pub const ALLOW_HEADERS: &'static str = "Access-Control-Allow-Headers";

/// The header that a caller of the creation endpoint may send.
pub const ALLOW_HEADERS_VALUE: &'static str = "Content-Type";

/// The name of the header that says what kind of body a reply has.
pub const CONTENT_TYPE: &'static str = "Content-Type";

/// The kind of a JSON body.
pub const JSON_CONTENT_TYPE: &'static str = "application/json";

/// One header of a reply.
#[derive(Debug, PartialEq, Eq)]
pub struct Header {
    pub name: String,
    pub value: String,
}

/// The mathematical content of a [`Header`].
pub struct HeaderView {
    pub name: Seq<char>,
    pub value: Seq<char>,
}

impl View for Header {
    type V = HeaderView;

    open spec fn view(&self) -> HeaderView {
        HeaderView { name: self.name@, value: self.value@ }
    }
}

/// The body of a reply. A `Json` body is sent as the JSON object of its
/// three fields.
#[derive(Debug, PartialEq, Eq)]
pub enum ReplyBody {
    Empty,
    Text(String),
    Json(CreateResponse),
}

/// The mathematical content of a [`ReplyBody`].
pub enum ReplyBodyView {
    Empty,
    Text(Seq<char>),
    Json(CreateResponseView),
}

impl View for ReplyBody {
    type V = ReplyBodyView;

    open spec fn view(&self) -> ReplyBodyView {
        match self {
            ReplyBody::Empty => ReplyBodyView::Empty,
            ReplyBody::Text(text) => ReplyBodyView::Text(text@),
            ReplyBody::Json(created) => ReplyBodyView::Json(created@),
        }
    }
}

/// A reply to the caller.
#[derive(Debug, PartialEq, Eq)]
pub struct Reply {
    pub status: u16,
    pub headers: Vec<Header>,
    pub body: ReplyBody,
}

/// The mathematical content of a [`Reply`].
pub struct ReplyView {
    pub status: u16,
    pub headers: Seq<HeaderView>,
    pub body: ReplyBodyView,
}

/// The contents of a list of headers.
pub open spec fn headers_view(headers: Seq<Header>) -> Seq<HeaderView> {
    headers.map_values(|h: Header| h@)
}

impl View for Reply {
    type V = ReplyView;

    open spec fn view(&self) -> ReplyView {
        ReplyView { status: self.status, headers: headers_view(self.headers@), body: self.body@ }
    }
}

/// A reply of plain text without headers.
pub open spec fn text_reply(status: u16, text: Seq<char>) -> ReplyView {
    ReplyView { status, headers: Seq::empty(), body: ReplyBodyView::Text(text) }
}

/// Whether two characters are the same letter, the case of ASCII letters
/// set aside.
pub open spec fn same_letter(a: char, b: char) -> bool {
    ||| a == b
    ||| 'A' <= a <= 'Z' && a as u32 + 32 == b as u32
    ||| 'A' <= b <= 'Z' && b as u32 + 32 == a as u32
}

/// Whether two header names are the same name: header names do not
/// distinguish the case of ASCII letters.
pub open spec fn same_name(a: Seq<char>, b: Seq<char>) -> bool {
    &&& a.len() == b.len()
    &&& forall|i: int| 0 <= i < a.len() ==> same_letter(#[trigger] a[i], b[i])
}

/// `headers` without those of the given name.
pub open spec fn without_header(headers: Seq<HeaderView>, name: Seq<char>) -> Seq<HeaderView> {
    headers.filter(|h: HeaderView| !same_name(h.name, name))
}

/// `headers` after the header `name` is set to `value`: any earlier header
/// of that name is gone, and the new one stands last.
pub open spec fn with_header(headers: Seq<HeaderView>, name: Seq<char>, value: Seq<char>) -> Seq<
    HeaderView,
> {
    without_header(headers, name).push(HeaderView { name, value })
}

/// `headers` after the three headers that allow cross-origin calls of the
/// creation endpoint are set.
pub open spec fn with_cors(headers: Seq<HeaderView>) -> Seq<HeaderView> {
    with_header(
        with_header(
            with_header(headers, ALLOW_ORIGIN@, ALLOW_ORIGIN_VALUE@),
            ALLOW_METHODS@,
            ALLOW_METHODS_VALUE@,
        ),
        ALLOW_HEADERS@,
        ALLOW_HEADERS_VALUE@,
    )
}

/// The three headers that allow cross-origin calls, in the order in which
/// they are set.
pub open spec fn cors_header_list() -> Seq<HeaderView> {
    seq![
        HeaderView { name: ALLOW_ORIGIN@, value: ALLOW_ORIGIN_VALUE@ },
        HeaderView { name: ALLOW_METHODS@, value: ALLOW_METHODS_VALUE@ },
        HeaderView { name: ALLOW_HEADERS@, value: ALLOW_HEADERS_VALUE@ },
    ]
}

/// Whether no header of the given name is among `headers`.
pub open spec fn lacks_header(headers: Seq<HeaderView>, name: Seq<char>) -> bool {
    forall|i: int| 0 <= i < headers.len() ==> !same_name((#[trigger] headers[i]).name, name)
}

/// Taking away the headers of a name that the list does not hold leaves
/// the list as it is.
pub proof fn lemma_without_absent_header(headers: Seq<HeaderView>, name: Seq<char>)
    requires
        lacks_header(headers, name),
    ensures
        without_header(headers, name) == headers,
    decreases headers.len(),
{
    reveal(Seq::filter);
    if headers.len() > 0 {
        let front = headers.drop_last();
        assert forall|i: int| 0 <= i < front.len() implies !same_name(
            (#[trigger] front[i]).name,
            name,
        ) by {
            assert(front[i] == headers[i]);
        }
        lemma_without_absent_header(front, name);
        assert(!same_name(headers.last().name, name));
        assert(front.push(headers.last()) =~= headers);
    }
}

/// Setting a header that the list does not hold yet appends it.
pub proof fn lemma_with_header_fresh(headers: Seq<HeaderView>, name: Seq<char>, value: Seq<char>)
    requires
        lacks_header(headers, name),
    ensures
        with_header(headers, name, value) == headers.push(HeaderView { name, value }),
{
    lemma_without_absent_header(headers, name);
}

/// The three names of the headers for cross-origin calls are three
/// different header names.
pub proof fn lemma_cors_names_differ()
    ensures
        !same_name(ALLOW_ORIGIN@, ALLOW_METHODS@),
        !same_name(ALLOW_ORIGIN@, ALLOW_HEADERS@),
        !same_name(ALLOW_METHODS@, ALLOW_HEADERS@),
{
    reveal_strlit("Access-Control-Allow-Origin");
    reveal_strlit("Access-Control-Allow-Methods");
    reveal_strlit("Access-Control-Allow-Headers");
    assert(ALLOW_ORIGIN@.len() == 27);
    assert(ALLOW_METHODS@.len() == 28);
    assert(ALLOW_HEADERS@.len() == 28);
    assert(!same_letter(ALLOW_METHODS@[21], ALLOW_HEADERS@[21]));
}

/// On a list that holds none of them yet, setting the three headers for
/// cross-origin calls appends them.
pub proof fn lemma_with_cors_fresh(headers: Seq<HeaderView>)
    requires
        lacks_header(headers, ALLOW_ORIGIN@),
        lacks_header(headers, ALLOW_METHODS@),
        lacks_header(headers, ALLOW_HEADERS@),
    ensures
        with_cors(headers) == headers + cors_header_list(),
{
    lemma_cors_names_differ();
    let origin = HeaderView { name: ALLOW_ORIGIN@, value: ALLOW_ORIGIN_VALUE@ };
    let methods = HeaderView { name: ALLOW_METHODS@, value: ALLOW_METHODS_VALUE@ };
    let allowed = HeaderView { name: ALLOW_HEADERS@, value: ALLOW_HEADERS_VALUE@ };
    let first = headers.push(origin);
    let second = first.push(methods);
    lemma_with_header_fresh(headers, ALLOW_ORIGIN@, ALLOW_ORIGIN_VALUE@);
    assert(lacks_header(first, ALLOW_METHODS@)) by {
        lemma_same_name_symmetric(ALLOW_ORIGIN@, ALLOW_METHODS@);
    }
    lemma_with_header_fresh(first, ALLOW_METHODS@, ALLOW_METHODS_VALUE@);
    assert(lacks_header(second, ALLOW_HEADERS@)) by {
        lemma_same_name_symmetric(ALLOW_ORIGIN@, ALLOW_HEADERS@);
        lemma_same_name_symmetric(ALLOW_METHODS@, ALLOW_HEADERS@);
    }
    lemma_with_header_fresh(second, ALLOW_HEADERS@, ALLOW_HEADERS_VALUE@);
    assert(second.push(allowed) =~= headers + cors_header_list());
}

/// Two names are the same name whichever is asked first.
pub proof fn lemma_same_name_symmetric(a: Seq<char>, b: Seq<char>)
    ensures
        same_name(a, b) == same_name(b, a),
{
    if same_name(a, b) {
        assert forall|i: int| 0 <= i < b.len() implies same_letter(#[trigger] b[i], a[i]) by {
            assert(same_letter(a[i], b[i]));
        }
    }
    if same_name(b, a) {
        assert forall|i: int| 0 <= i < a.len() implies same_letter(#[trigger] a[i], b[i]) by {
            assert(same_letter(b[i], a[i]));
        }
    }
}

/// Tells whether two header names are the same name.
pub fn same_header_name(a: &str, b: &str) -> (same: bool)
    ensures
        same == same_name(a@, b@),
{
    let x = chars_of(a);
    let y = chars_of(b);
    if x.len() != y.len() {
        return false;
    }
    let mut i: usize = 0;
    while i < x.len()
        invariant
            x@ == a@,
            y@ == b@,
            x@.len() == y@.len(),
            i <= x@.len(),
            forall|j: int| 0 <= j < i ==> same_letter(#[trigger] x@[j], y@[j]),
        decreases x@.len() - i,
    {
        let p = x[i];
        let q = y[i];
        let same = p == q || ('A' <= p && p <= 'Z' && p as u32 + 32 == q as u32) || ('A' <= q && q
            <= 'Z' && q as u32 + 32 == p as u32);
        if !same {
            return false;
        }
        i += 1;
    }
    true
}

impl Reply {
    /// A reply with status 200, no headers and the given body.
    pub fn new(body: ReplyBody) -> (reply: Reply)
        ensures
            reply@ == (ReplyView { status: 200, headers: Seq::empty(), body: body@ }),
    {
        let reply = Reply { status: 200, headers: Vec::new(), body };
        assert(reply@.headers =~= Seq::empty());
        reply
    }

    /// A reply with the given status, no headers and a body of plain text.
    pub fn text(status: u16, text: &str) -> (reply: Reply)
        ensures
            reply@ == text_reply(status, text@),
    {
        let reply = Reply { status, headers: Vec::new(), body: ReplyBody::Text(text.to_owned()) };
        assert(reply@.headers =~= Seq::empty());
        reply
    }

    /// Sets the header `name` to `value`, in place of any header of that
    /// name that the reply held before.
    pub fn set_header(&mut self, name: &str, value: &str)
        ensures
            final(self)@ == (ReplyView {
                headers: with_header(old(self)@.headers, name@, value@),
                ..old(self)@
            }),
    {
        let ghost before = headers_view(self.headers@);
        let ghost keep = |h: HeaderView| !same_name(h.name, name@);
        let mut kept: Vec<Header> = Vec::new();
        let mut i: usize = 0;
        proof {
            reveal(Seq::filter);
            assert(before.take(0).filter(keep) == Seq::<HeaderView>::empty());
        }
        while i < self.headers.len()
            invariant
                i <= self.headers@.len(),
                before == headers_view(self.headers@),
                keep == |h: HeaderView| !same_name(h.name, name@),
                headers_view(kept@) == before.take(i as int).filter(keep),
            decreases self.headers@.len() - i,
        {
            let header = &self.headers[i];
            proof {
                reveal(Seq::filter);
                assert(before.take(i + 1).drop_last() == before.take(i as int));
                assert(before.take(i + 1).last() == header@);
            }
            if !same_header_name(header.name.as_str(), name) {
                let copy = Header { name: header.name.clone(), value: header.value.clone() };
                kept.push(copy);
                assert(headers_view(kept@) == before.take(i as int).filter(keep).push(header@));
            }
            i += 1;
        }
        assert(before.take(i as int) == before);
        kept.push(Header { name: name.to_owned(), value: value.to_owned() });
        assert(headers_view(kept@) == with_header(before, name@, value@));
        self.headers = kept;
    }
}

/// Sets on `resp` the three headers that allow cross-origin calls.
pub fn cors_headers(resp: &mut Reply)
    ensures
        final(resp)@ == (ReplyView { headers: with_cors(old(resp)@.headers), ..old(resp)@ }),
{
    resp.set_header(ALLOW_ORIGIN, ALLOW_ORIGIN_VALUE);
    resp.set_header(ALLOW_METHODS, ALLOW_METHODS_VALUE);
    resp.set_header(ALLOW_HEADERS, ALLOW_HEADERS_VALUE);
}

/// `resp` with the three headers that allow cross-origin calls set.
pub fn cors_response(resp: Reply) -> (allowed: Reply)
    ensures
        allowed@ == (ReplyView { headers: with_cors(resp@.headers), ..resp@ }),
{
    let mut allowed = resp;
    cors_headers(&mut allowed);
    allowed
}

} // verus!

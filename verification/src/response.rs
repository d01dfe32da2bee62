use vstd::prelude::*;

use crate::request::ResponseMessage;

verus! {

/// Result of a consumer-facing operation: plain success, or an error
/// message describing why the operation was refused.
#[derive(Debug, PartialEq)]
pub enum NifResult {
    Success,
    Error(String),
}

/// The numeric status codes the wire format admits. Anything outside this
/// range is replaced by 500 when a response is assembled.
pub open spec fn spec_valid_status(code: u16) -> bool {
    100 <= code <= 999
}

/// The status actually carried by a response built with `code`.
pub open spec fn spec_normalize_status(code: u16) -> u16 {
    if spec_valid_status(code) {
        code
    } else {
        500
    }
}

/// Clamp a consumer-supplied status code to what the wire format admits;
/// an out-of-range code becomes 500.
pub fn u16_to_status(code: u16) -> (r: u16)
    ensures
        r == spec_normalize_status(code),
{
    if 100 <= code && code <= 999 {
        code
    } else {
        500
    }
}

/// Spec-level image of an accumulating response builder.
#[verifier::ext_equal]
pub struct BuilderView {
    pub status: Option<u16>,
    pub headers: Seq<(Seq<char>, Seq<char>)>,
    pub body_chunks: Seq<Seq<u8>>,
}

/// Spec-level image of a finished response.
#[verifier::ext_equal]
pub struct ResponseView {
    pub status: u16,
    pub headers: Seq<(Seq<char>, Seq<char>)>,
    pub body_chunks: Seq<Seq<u8>>,
}

/// The response body as one byte string: the chunks concatenated in order.
pub open spec fn spec_body_bytes(r: ResponseView) -> Seq<u8> {
    r.body_chunks.flatten()
}

/// The builder state with nothing accumulated yet.
pub open spec fn spec_empty_builder() -> BuilderView {
    BuilderView { status: None, headers: Seq::empty(), body_chunks: Seq::empty() }
}

/// How one response part changes the accumulated state: a later `Status`
/// overwrites, headers and chunks append in order, `Finish` changes
/// nothing by itself (the run stops at it).
pub open spec fn spec_apply_message(b: BuilderView, msg: ResponseMessage) -> BuilderView {
    match msg {
        ResponseMessage::Status(s) => BuilderView { status: Some(spec_normalize_status(s)), ..b },
        ResponseMessage::Header(n, v) => BuilderView { headers: b.headers.push((n@, v@)), ..b },
        ResponseMessage::BodyChunk(c) => BuilderView { body_chunks: b.body_chunks.push(c@), ..b },
        ResponseMessage::Finish => b,
    }
}

/// Run a message sequence against a builder state, stopping at the first
/// `Finish`; messages after it are never processed.
pub open spec fn spec_run_messages(b: BuilderView, msgs: Seq<ResponseMessage>) -> BuilderView
    decreases msgs.len(),
{
    if msgs.len() == 0 {
        b
    } else if msgs[0] is Finish {
        b
    } else {
        spec_run_messages(spec_apply_message(b, msgs[0]), msgs.drop_first())
    }
}

/// Seal an accumulated state into a response: status defaults to 200 if
/// none was sent; zero chunks yield an empty body, not a missing one.
pub open spec fn spec_finalize(b: BuilderView) -> ResponseView {
    ResponseView {
        status: match b.status {
            Some(s) => s,
            None => 200,
        },
        headers: b.headers,
        body_chunks: b.body_chunks,
    }
}

/// The response that a full message stream produces.
pub open spec fn spec_build_response(msgs: Seq<ResponseMessage>) -> ResponseView {
    spec_finalize(spec_run_messages(spec_empty_builder(), msgs))
}

/// A finished outgoing response in plain values: the status, the header
/// pairs in send order (duplicates preserved, never merged), and the body
/// as the chunk list the consumer streamed.
#[derive(Debug, PartialEq)]
pub struct HttpResponse {
    pub status: u16,
    pub headers: Vec<(String, String)>,
    pub body_chunks: Vec<Vec<u8>>,
}

impl View for HttpResponse {
    type V = ResponseView;

    open spec fn view(&self) -> ResponseView {
        ResponseView {
            status: self.status,
            headers: self.headers@.map_values(|p: (String, String)| (p.0@, p.1@)),
            body_chunks: self.body_chunks@.map_values(|c: Vec<u8>| c@),
        }
    }
}

/// Accumulates response parts until the stream finishes.
pub struct ResponseBuilder {
    pub status: Option<u16>,
    pub headers: Vec<(String, String)>,
    pub body_chunks: Vec<Vec<u8>>,
}

impl View for ResponseBuilder {
    type V = BuilderView;

    open spec fn view(&self) -> BuilderView {
        BuilderView {
            status: self.status,
            headers: self.headers@.map_values(|p: (String, String)| (p.0@, p.1@)),
            body_chunks: self.body_chunks@.map_values(|c: Vec<u8>| c@),
        }
    }
}

impl ResponseBuilder {
    /// A builder with nothing accumulated.
    pub fn new() -> (r: ResponseBuilder)
        ensures
            r@ =~= spec_empty_builder(),
    {
        ResponseBuilder { status: None, headers: Vec::new(), body_chunks: Vec::new() }
    }

    /// Record the status; a later call overwrites an earlier one.
    pub fn set_status(&mut self, status: u16)
        ensures
            final(self)@ =~= (BuilderView {
                status: Some(spec_normalize_status(status)),
                ..old(self)@
            }),
    {
        self.status = Some(u16_to_status(status));
    }

    /// Append a header pair; duplicates are kept, not merged.
    pub fn add_header(&mut self, name: String, value: String)
        ensures
            final(self)@ =~= (BuilderView {
                headers: old(self)@.headers.push((name@, value@)),
                ..old(self)@
            }),
    {
        self.headers.push((name, value));
    }

    /// Append a body chunk.
    pub fn add_body_chunk(&mut self, chunk: Vec<u8>)
        ensures
            final(self)@ =~= (BuilderView {
                body_chunks: old(self)@.body_chunks.push(chunk@),
                ..old(self)@
            }),
    {
        self.body_chunks.push(chunk);
    }

    /// Feed one message to the builder; the result says whether the stream
    /// is finished and processing must stop.
    pub fn apply_message(&mut self, msg: ResponseMessage) -> (done: bool)
        ensures
            final(self)@ =~= spec_apply_message(old(self)@, msg),
            done == (msg is Finish),
    {
        match msg {
            ResponseMessage::Status(s) => {
                self.set_status(s);
                false
            },
            ResponseMessage::Header(n, v) => {
                self.add_header(n, v);
                false
            },
            ResponseMessage::BodyChunk(c) => {
                self.add_body_chunk(c);
                false
            },
            ResponseMessage::Finish => true,
        }
    }

    /// Seal the accumulated state: status defaults to 200; zero chunks
    /// yield an empty body.
    pub fn build(self) -> (r: HttpResponse)
        ensures
            r@ =~= spec_finalize(self@),
    {
        let status = match self.status {
            Some(s) => s,
            None => 200,
        };
        HttpResponse { status, headers: self.headers, body_chunks: self.body_chunks }
    }
}

impl Default for ResponseBuilder {
    /// Same as `ResponseBuilder::new`.
    fn default() -> (r: ResponseBuilder)
        ensures
            r@ =~= spec_empty_builder(),
    {
        ResponseBuilder::new()
    }
}

/// Consume a response-part stream until its first `Finish` — or, if the
/// consumer went away before finishing, to its end — and emit what was
/// accumulated as the final response.
pub fn build_response_from_channel(messages: Vec<ResponseMessage>) -> (r: HttpResponse)
    ensures
        r@ =~= spec_build_response(messages@),
{
    let ghost all = messages@;
    let mut builder = ResponseBuilder::new();
    let mut msgs = messages;
    let mut done = false;
    while !done && msgs.len() > 0
        invariant
            done ==> builder@ =~= spec_run_messages(spec_empty_builder(), all),
            !done ==> spec_run_messages(spec_empty_builder(), all) =~= spec_run_messages(
                builder@,
                msgs@,
            ),
        decreases msgs@.len(),
    {
        let ghost before = msgs@;
        let msg = msgs.remove(0);
        proof {
            assert(msgs@ =~= before.drop_first());
        }
        done = builder.apply_message(msg);
    }
    builder.build()
}

/// A streamed response built by `send_status(s)`, `send_header(h, v)`,
/// `write_chunk(c1)`, `write_chunk(c2)`, `finish()` carries exactly status
/// `s`, the single header pair `(h, v)`, and the body `c1 ++ c2` —
/// concatenated, order preserved, nothing interleaved.
pub proof fn lemma_streamed_response(s: u16, h: String, v: String, c1: Vec<u8>, c2: Vec<u8>)
    requires
        spec_valid_status(s),
    ensures
        ({
            let msgs = seq![
                ResponseMessage::Status(s),
                ResponseMessage::Header(h, v),
                ResponseMessage::BodyChunk(c1),
                ResponseMessage::BodyChunk(c2),
                ResponseMessage::Finish,
            ];
            let r = spec_build_response(msgs);
            &&& r.status == s
            &&& r.headers =~= seq![(h@, v@)]
            &&& spec_body_bytes(r) =~= c1@ + c2@
        }),
{
    let msgs = seq![
        ResponseMessage::Status(s),
        ResponseMessage::Header(h, v),
        ResponseMessage::BodyChunk(c1),
        ResponseMessage::BodyChunk(c2),
        ResponseMessage::Finish,
    ];
    let b0 = spec_empty_builder();
    let b1 = spec_apply_message(b0, msgs[0]);
    let b2 = spec_apply_message(b1, msgs[1]);
    let b3 = spec_apply_message(b2, msgs[2]);
    let b4 = spec_apply_message(b3, msgs[3]);
    assert(msgs.drop_first() =~= seq![
        ResponseMessage::Header(h, v),
        ResponseMessage::BodyChunk(c1),
        ResponseMessage::BodyChunk(c2),
        ResponseMessage::Finish,
    ]);
    assert(msgs.drop_first().drop_first() =~= seq![
        ResponseMessage::BodyChunk(c1),
        ResponseMessage::BodyChunk(c2),
        ResponseMessage::Finish,
    ]);
    assert(msgs.drop_first().drop_first().drop_first() =~= seq![
        ResponseMessage::BodyChunk(c2),
        ResponseMessage::Finish,
    ]);
    assert(msgs.drop_first().drop_first().drop_first().drop_first() =~= seq![
        ResponseMessage::Finish,
    ]);
    assert(spec_run_messages(b0, msgs) == spec_run_messages(b1, msgs.drop_first()));
    assert(spec_run_messages(b1, msgs.drop_first()) == spec_run_messages(
        b2,
        msgs.drop_first().drop_first(),
    ));
    assert(spec_run_messages(b2, msgs.drop_first().drop_first()) == spec_run_messages(
        b3,
        msgs.drop_first().drop_first().drop_first(),
    ));
    assert(spec_run_messages(b3, msgs.drop_first().drop_first().drop_first())
        == spec_run_messages(b4, msgs.drop_first().drop_first().drop_first().drop_first()));
    assert(spec_run_messages(b4, msgs.drop_first().drop_first().drop_first().drop_first()) == b4);
    assert(spec_run_messages(b0, msgs) =~= b4);
    let r = spec_build_response(msgs);
    assert(r.body_chunks =~= seq![c1@, c2@]);
    assert(seq![c1@, c2@].flatten() =~= c1@ + c2@) by {
        reveal_with_fuel(Seq::<_>::flatten, 4);
        assert(seq![c1@, c2@].drop_first() =~= seq![c2@]);
        assert(seq![c2@].drop_first() =~= Seq::<Seq<u8>>::empty());
    }
}

} // verus!

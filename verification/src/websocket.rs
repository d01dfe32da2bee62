use vstd::prelude::*;

use base64::Engine;
use sha1::Digest;

use crate::request::{RequestHandle, ResponseMessage};

verus! {

use vstd::string::StrSliceExecFns;
use vstd::utf8::encode_utf8;

/// WebSocket frame kinds this layer surfaces to the consumer.
#[derive(Debug, Clone, PartialEq)]
pub enum Frame {
    Text(String),
    Binary(Vec<u8>),
    Ping(Vec<u8>),
    Pong(Vec<u8>),
    Close,
}

/// Spec-level image of a frame.
pub enum FrameView {
    Text(Seq<char>),
    Binary(Seq<u8>),
    Ping(Seq<u8>),
    Pong(Seq<u8>),
    Close,
}

impl View for Frame {
    type V = FrameView;

    open spec fn view(&self) -> FrameView {
        match self {
            Frame::Text(s) => FrameView::Text(s@),
            Frame::Binary(b) => FrameView::Binary(b@),
            Frame::Ping(p) => FrameView::Ping(p@),
            Frame::Pong(p) => FrameView::Pong(p@),
            Frame::Close => FrameView::Close,
        }
    }
}

/// Plain image of one message on the WebSocket wire, including the raw
/// frame kind that this layer never surfaces.
#[derive(Debug, PartialEq)]
pub enum WireMessage {
    Text(String),
    Binary(Vec<u8>),
    Ping(Vec<u8>),
    Pong(Vec<u8>),
    Close,
    Raw,
}

/// Spec-level image of a wire message.
pub enum WireView {
    Text(Seq<char>),
    Binary(Seq<u8>),
    Ping(Seq<u8>),
    Pong(Seq<u8>),
    Close,
    Raw,
}

impl View for WireMessage {
    type V = WireView;

    open spec fn view(&self) -> WireView {
        match self {
            WireMessage::Text(s) => WireView::Text(s@),
            WireMessage::Binary(b) => WireView::Binary(b@),
            WireMessage::Ping(p) => WireView::Ping(p@),
            WireMessage::Pong(p) => WireView::Pong(p@),
            WireMessage::Close => WireView::Close,
            WireMessage::Raw => WireView::Raw,
        }
    }
}

/// The wire message a frame is sent as.
pub open spec fn spec_wire_of(f: FrameView) -> WireView {
    match f {
        FrameView::Text(s) => WireView::Text(s),
        FrameView::Binary(b) => WireView::Binary(b),
        FrameView::Ping(p) => WireView::Ping(p),
        FrameView::Pong(p) => WireView::Pong(p),
        FrameView::Close => WireView::Close,
    }
}

/// The frame a received wire message surfaces as; a raw frame surfaces as
/// nothing and is dropped silently at this layer.
pub open spec fn spec_frame_of(m: WireView) -> Option<FrameView> {
    match m {
        WireView::Text(s) => Some(FrameView::Text(s)),
        WireView::Binary(b) => Some(FrameView::Binary(b)),
        WireView::Ping(p) => Some(FrameView::Ping(p)),
        WireView::Pong(p) => Some(FrameView::Pong(p)),
        WireView::Close => Some(FrameView::Close),
        WireView::Raw => None,
    }
}

impl Frame {
    /// Render this frame as the wire message that transmits it.
    pub fn to_ws_message(&self) -> (r: WireMessage)
        ensures
            r@ == spec_wire_of(self@),
    {
        match self {
            Frame::Text(s) => WireMessage::Text(s.clone()),
            Frame::Binary(b) => WireMessage::Binary(b.clone()),
            Frame::Ping(p) => WireMessage::Ping(p.clone()),
            Frame::Pong(p) => WireMessage::Pong(p.clone()),
            Frame::Close => WireMessage::Close,
        }
    }

    /// Classify a received wire message; a raw frame yields no frame.
    pub fn from_ws_message(msg: WireMessage) -> (r: Option<Frame>)
        ensures
            spec_frame_of(msg@) is None ==> r is None,
            spec_frame_of(msg@) matches Some(fv) ==> (r matches Some(f) && f@ == fv),
    {
        match msg {
            WireMessage::Text(s) => Some(Frame::Text(s)),
            WireMessage::Binary(b) => Some(Frame::Binary(b)),
            WireMessage::Ping(p) => Some(Frame::Ping(p)),
            WireMessage::Pong(p) => Some(Frame::Pong(p)),
            WireMessage::Close => Some(Frame::Close),
            WireMessage::Raw => None,
        }
    }
}

/// The SHA-1 digest of a byte string.
pub uninterp spec fn sha1_of(data: Seq<u8>) -> Seq<u8>;

/// Relies on the sha1 crate's `Sha1` hasher through the `Digest` API: the
/// digest is a pure function of the input bytes and is 20 bytes long.
#[verifier::external_body]
fn sha1_digest(data: &Vec<u8>) -> (r: Vec<u8>)
    ensures
        r@ == sha1_of(data@),
        r@.len() == 20,
{
    let mut hasher = sha1::Sha1::new();
    hasher.update(data.as_slice());
    hasher.finalize().to_vec()
}

/// The standard base64 rendering, with padding, of a byte string.
pub uninterp spec fn base64_of(data: Seq<u8>) -> Seq<char>;

/// Relies on base64's standard-alphabet padded engine
/// (`general_purpose::STANDARD.encode`): the rendering is a pure function
/// of the input bytes.
#[verifier::external_body]
fn base64_encode(data: &Vec<u8>) -> (r: String)
    ensures
        r@ == base64_of(data@),
{
    base64::engine::general_purpose::STANDARD.encode(data.as_slice())
}

/// The fixed GUID the handshake appends to the client's key before
/// hashing.
pub open spec fn spec_ws_guid() -> Seq<char> {
    "258EAFA5-E914-47DA-95CA-C5AB0DC85B11"@
}

/// The handshake accept value for a client key: base64 of the SHA-1
/// digest of the key's bytes followed by the GUID's bytes.
pub open spec fn spec_accept_value(key: Seq<char>) -> Seq<char> {
    base64_of(sha1_of(encode_utf8(key) + encode_utf8(spec_ws_guid())))
}

/// Compute the `Sec-WebSocket-Accept` value for a client's
/// `Sec-WebSocket-Key` value.
pub fn websocket_accept_key(key: &str) -> (r: String)
    ensures
        r@ == spec_accept_value(key@),
{
    let mut data = key.as_bytes_vec();
    let mut guid = ("258EAFA5-E914-47DA-95CA-C5AB0DC85B11").as_bytes_vec();
    data.append(&mut guid);
    proof {
        assert(data@ =~= encode_utf8(key@) + encode_utf8(spec_ws_guid()));
    }
    let digest = sha1_digest(&data);
    base64_encode(&digest)
}

/// The character code a header name character compares as: ASCII upper
/// case folds to lower case, everything else stands as it is.
pub open spec fn spec_lower_code(c: char) -> int {
    if 65 <= c as u32 <= 90 {
        c as u32 + 32
    } else {
        c as u32 as int
    }
}

/// Case-insensitive (ASCII) equality of two header names.
pub open spec fn spec_name_matches(name: Seq<char>, target: Seq<char>) -> bool {
    name.len() == target.len() && forall|i: int|
        0 <= i < name.len() ==> spec_lower_code(name[i]) == spec_lower_code(target[i])
}

/// Whether a header name is `Sec-WebSocket-Key`, compared without regard
/// to ASCII case.
pub open spec fn spec_is_ws_key_name(name: Seq<char>) -> bool {
    spec_name_matches(name, "sec-websocket-key"@)
}

/// The value of the first `Sec-WebSocket-Key` header, if any.
pub open spec fn spec_ws_key(headers: Seq<(String, String)>) -> Option<Seq<char>>
    decreases headers.len(),
{
    if headers.len() == 0 {
        None
    } else if spec_is_ws_key_name(headers[0].0@) {
        Some(headers[0].1@)
    } else {
        spec_ws_key(headers.drop_first())
    }
}

/// Fold one character for a case-insensitive header-name comparison.
fn char_lower_code(c: char) -> (r: u32)
    ensures
        r == spec_lower_code(c),
{
    let code = c as u32;
    if 65 <= code && code <= 90 {
        code + 32
    } else {
        code
    }
}

/// Whether this header name is `Sec-WebSocket-Key`, without regard to
/// ASCII case.
fn header_name_is_ws_key(name: &String) -> (r: bool)
    ensures
        r == spec_is_ws_key_name(name@),
{
    let target: &str = "sec-websocket-key";
    let n = name.as_str().unicode_len();
    if n != target.unicode_len() {
        return false;
    }
    let mut j: usize = 0;
    while j < n
        invariant
            j <= n,
            n == name@.len(),
            n == target@.len(),
            target@ == "sec-websocket-key"@,
            forall|k: int|
                0 <= k < j ==> spec_lower_code(name@[k]) == spec_lower_code(target@[k]),
        decreases n - j,
    {
        let a = char_lower_code(name.as_str().get_char(j));
        let b = char_lower_code(target.get_char(j));
        if a != b {
            return false;
        }
        j = j + 1;
    }
    true
}

/// Find the value of the first `Sec-WebSocket-Key` header, if any.
pub fn find_websocket_key(headers: &Vec<(String, String)>) -> (r: Option<String>)
    ensures
        r is Some <==> spec_ws_key(headers@) is Some,
        r matches Some(v) ==> (spec_ws_key(headers@) matches Some(k) && k == v@),
{
    let mut i: usize = 0;
    proof {
        assert(headers@.skip(0) =~= headers@);
    }
    while i < headers.len()
        invariant
            i <= headers@.len(),
            spec_ws_key(headers@) == spec_ws_key(headers@.skip(i as int)),
        decreases headers@.len() - i,
    {
        let ghost before = headers@.skip(i as int);
        if header_name_is_ws_key(&headers[i].0) {
            return Some(headers[i].1.clone());
        }
        proof {
            assert(before.drop_first() =~= headers@.skip(i as int + 1));
        }
        i = i + 1;
    }
    proof {
        assert(headers@.skip(headers@.len() as int) =~= Seq::<(String, String)>::empty());
    }
    None
}

/// The consumer-facing handle over one upgraded connection. Once the
/// stream has reported closed or erroring, a `Close` frame has arrived, or
/// the consumer has sent `Close`, the handle is closed for good: sends
/// fail and receives report closed.
#[derive(Debug)]
pub struct WebSocketHandle {
    /// True while frames may still be sent and received.
    pub open: bool,
}

/// What the stream reported when the transport side polled it for the
/// next message.
pub enum RecvEvent {
    Message(WireMessage),
    StreamError,
    StreamEnd,
}

impl WebSocketHandle {
    /// A handle over a freshly upgraded connection.
    pub fn new() -> (r: WebSocketHandle)
        ensures
            r.open,
    {
        WebSocketHandle { open: true }
    }

    /// Decide a send: while the handle is open the frame maps to the wire
    /// message to transmit, and sending `Close` closes the handle; after
    /// that every send fails.
    pub fn send_frame(&mut self, frame: Frame) -> (r: Result<WireMessage, String>)
        ensures
            !old(self).open ==> !final(self).open && (r matches Err(m) && m@
                == "WebSocket closed"@),
            old(self).open && !(frame is Close) ==> final(self).open && (r matches Ok(w) && w@
                == spec_wire_of(frame@)),
            old(self).open && frame is Close ==> !final(self).open && (r matches Ok(w) && w@
                == spec_wire_of(frame@)),
    {
        if !self.open {
            return Err("WebSocket closed".to_owned());
        }
        let wire = frame.to_ws_message();
        if let Frame::Close = frame {
            self.open = false;
        }
        Ok(wire)
    }

    /// Record that the stream itself failed mid-transmission; the handle
    /// is closed for good.
    pub fn mark_closed(&mut self)
        ensures
            !final(self).open,
    {
        self.open = false;
    }

    /// Classify what the stream reported: a classifiable message surfaces
    /// as its frame (`Close` also closes the handle), a raw frame is
    /// dropped silently, an error or the stream's end closes the handle;
    /// once closed, every receive reports closed rather than blocking.
    pub fn recv_frame(&mut self, event: RecvEvent) -> (r: Option<Frame>)
        ensures
            !old(self).open ==> !final(self).open && r is None,
            old(self).open ==> match event {
                RecvEvent::Message(m) => match spec_frame_of(m@) {
                    Some(fv) => (r matches Some(f) && f@ == fv) && final(self).open == !(fv
                        is Close),
                    None => r is None && final(self).open,
                },
                RecvEvent::StreamError => r is None && !final(self).open,
                RecvEvent::StreamEnd => r is None && !final(self).open,
            },
    {
        if !self.open {
            return None;
        }
        match event {
            RecvEvent::Message(m) => {
                let r = Frame::from_ws_message(m);
                if let Some(Frame::Close) = &r {
                    self.open = false;
                }
                r
            },
            RecvEvent::StreamError => {
                self.open = false;
                None
            },
            RecvEvent::StreamEnd => {
                self.open = false;
                None
            },
        }
    }
}

/// Upgrade a request into a WebSocket connection. This succeeds exactly
/// when the upgrade slot is still present, the response sink has not been
/// finished for anything else, and the request carries a
/// `Sec-WebSocket-Key` header; it then emits the complete `101 Switching
/// Protocols` handshake — `Upgrade`, `Connection` and the computed
/// `Sec-WebSocket-Accept` header — through the ordinary response sink,
/// finishes the sink, and consumes the upgrade slot, so a second upgrade
/// or any later response part is refused. A failed upgrade leaves the
/// request untouched.
pub fn upgrade_websocket(req: &mut RequestHandle) -> (r: Result<WebSocketHandle, String>)
    ensures
        final(req).metadata == old(req).metadata,
        final(req).body_open == old(req).body_open,
        r is Ok <==> old(req).upgrade_open && old(req).sink_open && spec_ws_key(
            old(req).metadata.headers@,
        ) is Some,
        r is Err ==> final(req).upgrade_open == old(req).upgrade_open && final(req).sink_open
            == old(req).sink_open && final(req).outgoing == old(req).outgoing,
        !old(req).upgrade_open ==> (r matches Err(m) && m@ == "Not an upgradeable request"@),
        old(req).upgrade_open && spec_ws_key(old(req).metadata.headers@) is None ==> (r matches
        Err(m) && m@ == "Missing Sec-WebSocket-Key header"@),
        old(req).upgrade_open && spec_ws_key(old(req).metadata.headers@) is Some
            && !old(req).sink_open ==> (r matches Err(m) && m@ == "Response already sent"@),
        r is Ok ==> ({
            let pre = old(req).outgoing@;
            let post = final(req).outgoing@;
            &&& r matches Ok(h) && h.open
            &&& !final(req).upgrade_open
            &&& !final(req).sink_open
            &&& post.len() == pre.len() + 5
            &&& post.take(pre.len() as int) =~= pre
            &&& post[pre.len() as int] == ResponseMessage::Status(101)
            &&& (post[pre.len() as int + 1] matches ResponseMessage::Header(n, v) && n@
                == "Upgrade"@ && v@ == "websocket"@)
            &&& (post[pre.len() as int + 2] matches ResponseMessage::Header(n, v) && n@
                == "Connection"@ && v@ == "Upgrade"@)
            &&& (spec_ws_key(old(req).metadata.headers@) matches Some(key) && (post[pre.len()
                as int + 3] matches ResponseMessage::Header(n, v) && n@ == "Sec-WebSocket-Accept"@
                && v@ == spec_accept_value(key)))
            &&& post[pre.len() as int + 4] == ResponseMessage::Finish
        }),
{
    if !req.upgrade_open {
        return Err("Not an upgradeable request".to_owned());
    }
    let key = match find_websocket_key(&req.metadata.headers) {
        Some(k) => k,
        None => {
            return Err("Missing Sec-WebSocket-Key header".to_owned());
        },
    };
    if !req.sink_open {
        return Err("Response already sent".to_owned());
    }
    let accept = websocket_accept_key(key.as_str());
    req.upgrade_open = false;
    req.outgoing.push(ResponseMessage::Status(101));
    req.outgoing.push(ResponseMessage::Header("Upgrade".to_owned(), "websocket".to_owned()));
    req.outgoing.push(ResponseMessage::Header("Connection".to_owned(), "Upgrade".to_owned()));
    req.outgoing.push(ResponseMessage::Header("Sec-WebSocket-Accept".to_owned(), accept));
    req.outgoing.push(ResponseMessage::Finish);
    req.sink_open = false;
    Ok(WebSocketHandle::new())
}

} // verus!

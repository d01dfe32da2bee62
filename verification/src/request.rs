use vstd::prelude::*;

use crate::response::NifResult;

verus! {

/// HTTP protocol version of a parsed request, as a fixed enumeration.
#[derive(Clone, Copy, PartialEq, Eq, Debug)]
pub enum HttpVersion {
    V10,
    V11,
    V2,
}

/// The text a protocol version is rendered as in request metadata.
pub open spec fn spec_version_string(v: HttpVersion) -> Seq<char> {
    match v {
        HttpVersion::V10 => "HTTP/1.0"@,
        HttpVersion::V11 => "HTTP/1.1"@,
        HttpVersion::V2 => "HTTP/2.0"@,
    }
}

/// Render a protocol version for request metadata.
pub fn version_to_string(version: HttpVersion) -> (r: String)
    ensures
        r@ == spec_version_string(version),
{
    match version {
        HttpVersion::V10 => "HTTP/1.0".to_owned(),
        HttpVersion::V11 => "HTTP/1.1".to_owned(),
        HttpVersion::V2 => "HTTP/2.0".to_owned(),
    }
}

/// Immutable description of one parsed request: method, path, optional query
/// string, rendered protocol version, and the header pairs in wire order,
/// duplicates and order preserved. Never mutated after creation.
#[derive(Clone)]
pub struct RequestMetadata {
    pub method: String,
    pub path: String,
    pub query: Option<String>,
    pub version: String,
    pub headers: Vec<(String, String)>,
}

/// The value recorded for a header whose wire value may have failed to
/// decode: an undecodable value degrades to the empty string rather than
/// aborting the request.
pub open spec fn spec_header_value(v: Option<String>) -> Seq<char> {
    match v {
        Some(s) => s@,
        None => Seq::<char>::empty(),
    }
}

/// Assemble request metadata from the parsed request line and headers.
/// A header value that did not decode (`None`) degrades to the empty string.
pub fn extract_metadata(
    method: String,
    path: String,
    query: Option<String>,
    version: HttpVersion,
    headers: Vec<(String, Option<String>)>,
) -> (r: RequestMetadata)
    ensures
        r.method@ == method@,
        r.path@ == path@,
        r.query is Some <==> query is Some,
        query matches Some(q0) ==> (r.query matches Some(q) && q@ == q0@),
        r.version@ == spec_version_string(version),
        r.headers@.len() == headers@.len(),
        forall|i: int|
            0 <= i < headers@.len() ==> (#[trigger] r.headers@[i]).0@ == headers@[i].0@
                && r.headers@[i].1@ == spec_header_value(headers@[i].1),
{
    let mut decoded: Vec<(String, String)> = Vec::new();
    let mut i: usize = 0;
    while i < headers.len()
        invariant
            i <= headers@.len(),
            decoded@.len() == i,
            forall|j: int|
                0 <= j < i ==> (#[trigger] decoded@[j]).0@ == headers@[j].0@
                    && decoded@[j].1@ == spec_header_value(headers@[j].1),
        decreases headers@.len() - i,
    {
        let name = headers[i].0.clone();
        let value = match &headers[i].1 {
            Some(v) => v.clone(),
            None => String::new(),
        };
        decoded.push((name, value));
        i = i + 1;
    }
    RequestMetadata {
        method,
        path,
        query,
        version: version_to_string(version),
        headers: decoded,
    }
}

/// One incremental part of a response, sent by the consumer through the
/// response sink. `Finish` is a sentinel: no part after it is processed.
#[derive(Debug, PartialEq)]
pub enum ResponseMessage {
    Status(u16),
    Header(String, String),
    BodyChunk(Vec<u8>),
    Finish,
}

/// One item carried by the body channel from the pump to the consumer:
/// a data chunk (a zero-length chunk is the explicit end-of-stream
/// sentinel) or a read-error marker.
#[derive(Debug, PartialEq)]
pub enum BodyItem {
    Chunk(Vec<u8>),
    Failed(String),
}

/// Spec-level image of a body channel item.
pub enum BodyItemView {
    Chunk(Seq<u8>),
    Failed(Seq<char>),
}

impl View for BodyItem {
    type V = BodyItemView;

    open spec fn view(&self) -> BodyItemView {
        match self {
            BodyItem::Chunk(c) => BodyItemView::Chunk(c@),
            BodyItem::Failed(e) => BodyItemView::Failed(e@),
        }
    }
}

/// Per-request state bundle exposed to the consumer: the request metadata,
/// the one-shot body source, the ordered response sink, and the one-shot
/// upgrade slot. Response parts pile up in `outgoing` until the transport
/// side picks them up.
pub struct RequestHandle {
    pub metadata: RequestMetadata,
    /// True until the body source has yielded its end-of-stream signal or an
    /// error; a read after that is a contract violation, not a re-read.
    pub body_open: bool,
    /// True until `Finish` has been sent, directly or by a WebSocket
    /// upgrade; no response part is accepted after that.
    pub sink_open: bool,
    /// True until the upgrade slot has been taken; it can be taken at most
    /// once.
    pub upgrade_open: bool,
    /// Response parts emitted by the consumer, in order, not yet taken by
    /// the transport side.
    pub outgoing: Vec<ResponseMessage>,
}

impl RequestHandle {
    /// A fresh handle for a request whose headers were just parsed: body
    /// unconsumed, sink open, upgrade slot present, nothing sent.
    pub fn new(metadata: RequestMetadata) -> (r: RequestHandle)
        ensures
            r.metadata == metadata,
            r.body_open,
            r.sink_open,
            r.upgrade_open,
            r.outgoing@ =~= Seq::<ResponseMessage>::empty(),
    {
        RequestHandle {
            metadata,
            body_open: true,
            sink_open: true,
            upgrade_open: true,
            outgoing: Vec::new(),
        }
    }

    /// Classify what the body channel yielded: a non-empty chunk is data, a
    /// zero-length chunk or a closed channel (`None`) is the explicit
    /// end-of-stream, an error marker is surfaced as the read's error. Once
    /// the stream has ended, every further read is a contract-violation
    /// error rather than stale data.
    pub fn read_body_chunk(&mut self, arrived: Option<BodyItem>) -> (r: Result<
        Option<Vec<u8>>,
        String,
    >)
        ensures
            final(self).metadata == old(self).metadata,
            final(self).sink_open == old(self).sink_open,
            final(self).upgrade_open == old(self).upgrade_open,
            final(self).outgoing == old(self).outgoing,
            !old(self).body_open ==> !final(self).body_open && (r matches Err(m)
                && m@ == "Body stream already consumed"@),
            old(self).body_open ==> match arrived {
                Some(BodyItem::Chunk(c)) => if c@.len() == 0 {
                    r == Ok::<Option<Vec<u8>>, String>(None) && !final(self).body_open
                } else {
                    r == Ok::<Option<Vec<u8>>, String>(Some(c)) && final(self).body_open
                },
                Some(BodyItem::Failed(e)) => r == Err::<Option<Vec<u8>>, String>(e)
                    && !final(self).body_open,
                None => r == Ok::<Option<Vec<u8>>, String>(None) && !final(self).body_open,
            },
    {
        if !self.body_open {
            return Err("Body stream already consumed".to_owned());
        }
        match arrived {
            Some(BodyItem::Chunk(c)) => {
                if c.len() == 0 {
                    self.body_open = false;
                    Ok(None)
                } else {
                    Ok(Some(c))
                }
            },
            Some(BodyItem::Failed(e)) => {
                self.body_open = false;
                Err(e)
            },
            None => {
                self.body_open = false;
                Ok(None)
            },
        }
    }

    /// Everything a send operation leaves untouched.
    pub open spec fn spec_send_unchanged(&self, pre: &RequestHandle) -> bool {
        &&& self.metadata == pre.metadata
        &&& self.body_open == pre.body_open
        &&& self.upgrade_open == pre.upgrade_open
    }

    /// Emit a status part into the response sink. Refused once the sink
    /// has been finished.
    pub fn send_status(&mut self, status: u16) -> (r: NifResult)
        ensures
            final(self).spec_send_unchanged(old(self)),
            final(self).sink_open == old(self).sink_open,
            old(self).sink_open ==> r == NifResult::Success && final(self).outgoing@
                =~= old(self).outgoing@.push(ResponseMessage::Status(status)),
            !old(self).sink_open ==> final(self).outgoing == old(self).outgoing && (r matches
            NifResult::Error(m) && m@ == "Response already sent"@),
    {
        if self.sink_open {
            self.outgoing.push(ResponseMessage::Status(status));
            NifResult::Success
        } else {
            NifResult::Error("Response already sent".to_owned())
        }
    }

    /// Emit a header part into the response sink. Refused once the sink
    /// has been finished.
    pub fn send_header(&mut self, name: String, value: String) -> (r: NifResult)
        ensures
            final(self).spec_send_unchanged(old(self)),
            final(self).sink_open == old(self).sink_open,
            old(self).sink_open ==> r == NifResult::Success && final(self).outgoing@
                =~= old(self).outgoing@.push(ResponseMessage::Header(name, value)),
            !old(self).sink_open ==> final(self).outgoing == old(self).outgoing && (r matches
            NifResult::Error(m) && m@ == "Response already sent"@),
    {
        if self.sink_open {
            self.outgoing.push(ResponseMessage::Header(name, value));
            NifResult::Success
        } else {
            NifResult::Error("Response already sent".to_owned())
        }
    }

    /// Emit a body chunk into the response sink. Refused once the sink has
    /// been finished.
    pub fn write_chunk(&mut self, data: Vec<u8>) -> (r: NifResult)
        ensures
            final(self).spec_send_unchanged(old(self)),
            final(self).sink_open == old(self).sink_open,
            old(self).sink_open ==> r == NifResult::Success && final(self).outgoing@
                =~= old(self).outgoing@.push(ResponseMessage::BodyChunk(data)),
            !old(self).sink_open ==> final(self).outgoing == old(self).outgoing && (r matches
            NifResult::Error(m) && m@ == "Response already sent"@),
    {
        if self.sink_open {
            self.outgoing.push(ResponseMessage::BodyChunk(data));
            NifResult::Success
        } else {
            NifResult::Error("Response already sent".to_owned())
        }
    }

    /// Terminate the response stream. The sink is closed by this: no part
    /// is accepted after `Finish`, and a second `finish` is refused.
    pub fn finish(&mut self) -> (r: NifResult)
        ensures
            final(self).spec_send_unchanged(old(self)),
            !final(self).sink_open,
            old(self).sink_open ==> r == NifResult::Success && final(self).outgoing@
                =~= old(self).outgoing@.push(ResponseMessage::Finish),
            !old(self).sink_open ==> final(self).outgoing == old(self).outgoing && (r matches
            NifResult::Error(m) && m@ == "Response already sent"@),
    {
        if self.sink_open {
            self.outgoing.push(ResponseMessage::Finish);
            self.sink_open = false;
            NifResult::Success
        } else {
            NifResult::Error("Response already sent".to_owned())
        }
    }

    /// Hand the accumulated response parts to the transport side, leaving
    /// the sink's buffer empty. The transport drains this after each send.
    pub fn take_outgoing(&mut self) -> (r: Vec<ResponseMessage>)
        ensures
            final(self).metadata == old(self).metadata,
            final(self).body_open == old(self).body_open,
            final(self).sink_open == old(self).sink_open,
            final(self).upgrade_open == old(self).upgrade_open,
            final(self).outgoing@ =~= Seq::<ResponseMessage>::empty(),
            r == old(self).outgoing,
    {
        let mut taken: Vec<ResponseMessage> = Vec::new();
        core::mem::swap(&mut taken, &mut self.outgoing);
        taken
    }
}

} // verus!

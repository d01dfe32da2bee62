use vstd::prelude::*;

use crate::request::{BodyItem, BodyItemView, RequestHandle};
use crate::response::{spec_normalize_status, u16_to_status, HttpResponse};
use vstd::string::{StrSliceExecFns, StringSliceAdditionalSpecFns};

verus! {

/// A request in transit through the queue: purely a transport wrapper
/// around its handle.
pub struct QueuedRequest {
    pub handle: RequestHandle,
}

/// What a pull from the queue yields: a request, nothing yet (the caller
/// suspends and pulls again), or the end of the stream after shutdown.
pub enum ReceiveResult {
    Request(RequestHandle),
    Empty,
    Ended,
}

/// What an enqueue attempt yields. A full queue hands the request back so
/// the connection suspends and retries — that is the backpressure valve —
/// and a queue that has shut down hands it back for a synthesized error
/// response.
pub enum EnqueueResult {
    Accepted,
    Full(QueuedRequest),
    Closed(QueuedRequest),
}

/// The demand-driven request queue between all connection handlers and the
/// single consumer, with its delivery history: a bounded buffer pulled at
/// the consumer's own pace.
pub struct ServerHandle {
    /// Requests accepted and not yet pulled, oldest first.
    pub pending: Vec<QueuedRequest>,
    /// True once `shutdown` ran; nothing is accepted or delivered after.
    pub closed: bool,
    /// The buffer bound; a full buffer makes producers wait.
    pub capacity: usize,
    /// History: every request pulled by the consumer, in delivery order.
    pub delivered: Ghost<Seq<QueuedRequest>>,
    /// History: every request ever accepted, in acceptance order.
    pub accepted: Ghost<Seq<QueuedRequest>>,
}

impl ServerHandle {
    /// The queue's invariant: what was accepted is exactly what was
    /// delivered followed by what is still pending.
    pub open spec fn wf(&self) -> bool {
        self.accepted@ == self.delivered@ + self.pending@
    }

    /// A fresh, open, empty queue with the given bound.
    pub fn new(capacity: usize) -> (r: ServerHandle)
        ensures
            r.wf(),
            !r.closed,
            r.capacity == capacity,
            r.pending@ =~= Seq::<QueuedRequest>::empty(),
            r.delivered@ =~= Seq::<QueuedRequest>::empty(),
            r.accepted@ =~= Seq::<QueuedRequest>::empty(),
    {
        let r = ServerHandle {
            pending: Vec::new(),
            closed: false,
            capacity,
            delivered: Ghost(Seq::empty()),
            accepted: Ghost(Seq::empty()),
        };
        proof {
            assert(r.accepted@ =~= r.delivered@ + r.pending@);
        }
        r
    }

    /// Offer a request to the queue. Accepted only while the queue is open
    /// and below its bound; a full queue or a queue that has shut down
    /// returns the request to the caller untouched.
    pub fn enqueue(&mut self, req: QueuedRequest) -> (r: EnqueueResult)
        requires
            old(self).wf(),
        ensures
            final(self).wf(),
            final(self).closed == old(self).closed,
            final(self).capacity == old(self).capacity,
            final(self).delivered@ == old(self).delivered@,
            old(self).closed ==> r == EnqueueResult::Closed(req) && final(self).pending
                == old(self).pending && final(self).accepted@ == old(self).accepted@,
            !old(self).closed && old(self).pending@.len() >= old(self).capacity ==> r
                == EnqueueResult::Full(req) && final(self).pending == old(self).pending
                && final(self).accepted@ == old(self).accepted@,
            !old(self).closed && old(self).pending@.len() < old(self).capacity ==> r
                == EnqueueResult::Accepted && final(self).pending@ =~= old(self).pending@.push(req)
                && final(self).accepted@ =~= old(self).accepted@.push(req),
    {
        if self.closed {
            EnqueueResult::Closed(req)
        } else if self.pending.len() >= self.capacity {
            EnqueueResult::Full(req)
        } else {
            proof {
                assert(old(self).accepted@.push(req) =~= old(self).delivered@ + old(
                    self,
                ).pending@.push(req));
            }
            self.accepted = Ghost(self.accepted@.push(req));
            self.pending.push(req);
            EnqueueResult::Accepted
        }
    }

    /// One demand-driven pull by the consumer. After shutdown every call
    /// reports the end of the stream; while the queue is open it yields the
    /// oldest pending request, or nothing when the buffer is momentarily
    /// empty and the caller should suspend and pull again.
    pub fn receive_request(&mut self) -> (r: ReceiveResult)
        requires
            old(self).wf(),
        ensures
            final(self).wf(),
            final(self).closed == old(self).closed,
            final(self).capacity == old(self).capacity,
            final(self).accepted@ == old(self).accepted@,
            old(self).closed ==> r == ReceiveResult::Ended && final(self).pending
                == old(self).pending && final(self).delivered@ == old(self).delivered@,
            !old(self).closed && old(self).pending@.len() == 0 ==> r == ReceiveResult::Empty
                && final(self).pending == old(self).pending && final(self).delivered@
                == old(self).delivered@,
            !old(self).closed && old(self).pending@.len() > 0 ==> r == ReceiveResult::Request(
                old(self).pending@[0].handle,
            ) && final(self).pending@ =~= old(self).pending@.drop_first() && final(self).delivered@
                =~= old(self).delivered@.push(old(self).pending@[0]),
    {
        if self.closed {
            ReceiveResult::Ended
        } else if self.pending.len() == 0 {
            ReceiveResult::Empty
        } else {
            proof {
                assert(old(self).accepted@ =~= (old(self).delivered@.push(old(self).pending@[0]))
                    + old(self).pending@.drop_first());
            }
            self.delivered = Ghost(self.delivered@.push(self.pending@[0]));
            let first = self.pending.remove(0);
            proof {
                assert(self.pending@ =~= old(self).pending@.drop_first());
            }
            let QueuedRequest { handle } = first;
            ReceiveResult::Request(handle)
        }
    }

    /// Shut the queue down. Idempotent; what was still pending is never
    /// delivered, and later enqueues and pulls are refused.
    pub fn shutdown(&mut self)
        ensures
            final(self).closed,
            final(self).pending == old(self).pending,
            final(self).capacity == old(self).capacity,
            final(self).delivered@ == old(self).delivered@,
            final(self).accepted@ == old(self).accepted@,
    {
        self.closed = true;
    }
}

/// The queue delivers every successfully accepted request at most once and
/// in acceptance order, and loses none while it runs: what has been
/// delivered is exactly the first stretch of what was accepted, and the
/// rest is still pending, in order.
pub proof fn lemma_queue_exactly_once(q: &ServerHandle)
    requires
        q.wf(),
    ensures
        q.delivered@ =~= q.accepted@.take(q.delivered@.len() as int),
        q.pending@ =~= q.accepted@.skip(q.delivered@.len() as int),
        q.delivered@.len() + q.pending@.len() == q.accepted@.len(),
{
    assert(q.accepted@ == q.delivered@ + q.pending@);
}

/// What one request-body frame from the wire does at the pump: which item
/// (if any) goes into the body channel, and whether the pump stops.
pub enum BodyFrameEvent {
    /// A data frame carrying these bytes.
    Data(Vec<u8>),
    /// A frame without data (trailers); nothing is forwarded.
    Trailers,
    /// The wire read failed with this message.
    ReadError(String),
    /// The body is complete.
    End,
}

/// One step of the per-request body pump: a non-empty data frame is
/// forwarded as a chunk; an empty data frame and trailers are skipped; a
/// read error forwards an error marker and stops; the body's end forwards
/// a zero-length chunk as the explicit end-of-stream sentinel — not a bare
/// channel close — and stops.
pub fn body_pump_step(event: BodyFrameEvent) -> (r: (Option<BodyItem>, bool))
    ensures
        match event {
            BodyFrameEvent::Data(c) => r.1 == false && (if c@.len() > 0 {
                r.0 == Some(BodyItem::Chunk(c))
            } else {
                r.0 is None
            }),
            BodyFrameEvent::Trailers => r.0 is None && r.1 == false,
            BodyFrameEvent::ReadError(e) => r.0 == Some(BodyItem::Failed(e)) && r.1 == true,
            BodyFrameEvent::End => r.1 == true && (r.0 matches Some(it) && it matches
            BodyItem::Chunk(c) && c@ =~= Seq::<u8>::empty()),
        },
{
    match event {
        BodyFrameEvent::Data(c) => {
            if c.len() > 0 {
                (Some(BodyItem::Chunk(c)), false)
            } else {
                (None, false)
            }
        },
        BodyFrameEvent::Trailers => (None, false),
        BodyFrameEvent::ReadError(e) => (Some(BodyItem::Failed(e)), true),
        BodyFrameEvent::End => (Some(BodyItem::Chunk(Vec::new())), true),
    }
}

/// A wire event on which the pump stops.
pub open spec fn spec_terminal_frame(e: BodyFrameEvent) -> bool {
    e is ReadError || e is End
}

/// A body-channel item that ends the consumer's reads: the zero-length
/// end-of-stream sentinel or an error marker.
pub open spec fn spec_terminal_item(it: BodyItemView) -> bool {
    match it {
        BodyItemView::Chunk(c) => c.len() == 0,
        BodyItemView::Failed(_) => true,
    }
}

/// Everything the pump forwards into the body channel for a given wire
/// frame sequence, stopping at the first read error or body end.
pub open spec fn spec_pump_items(frames: Seq<BodyFrameEvent>) -> Seq<BodyItemView>
    decreases frames.len(),
{
    if frames.len() == 0 {
        Seq::empty()
    } else {
        match frames[0] {
            BodyFrameEvent::Data(c) => if c@.len() > 0 {
                seq![BodyItemView::Chunk(c@)] + spec_pump_items(frames.drop_first())
            } else {
                spec_pump_items(frames.drop_first())
            },
            BodyFrameEvent::Trailers => spec_pump_items(frames.drop_first()),
            BodyFrameEvent::ReadError(e) => seq![BodyItemView::Failed(e@)],
            BodyFrameEvent::End => seq![BodyItemView::Chunk(Seq::empty())],
        }
    }
}

/// Reading a body to completion always ends in an explicit end-of-stream
/// signal: as soon as the wire reports the body's end or a read error, the
/// pumped item stream closes with the zero-length sentinel or an error
/// marker, after finitely many non-empty data chunks — a zero-length body
/// yields the sentinel alone, so no read ever hangs waiting for a signal
/// that is not coming.
pub proof fn lemma_body_pump_ends(frames: Seq<BodyFrameEvent>)
    requires
        exists|i: int| 0 <= i < frames.len() && spec_terminal_frame(frames[i]),
    ensures
        spec_pump_items(frames).len() > 0,
        spec_terminal_item(spec_pump_items(frames).last()),
        forall|j: int|
            0 <= j < spec_pump_items(frames).len() - 1 ==> !spec_terminal_item(
                #[trigger] spec_pump_items(frames)[j],
            ),
    decreases frames.len(),
{
    let i = choose|i: int| 0 <= i < frames.len() && spec_terminal_frame(frames[i]);
    if spec_terminal_frame(frames[0]) {
    } else {
        assert(0 <= i - 1 < frames.drop_first().len() && spec_terminal_frame(
            frames.drop_first()[i - 1],
        ));
        lemma_body_pump_ends(frames.drop_first());
        let rest = spec_pump_items(frames.drop_first());
        match frames[0] {
            BodyFrameEvent::Data(c) => {
                if c@.len() > 0 {
                    assert(spec_pump_items(frames) =~= seq![BodyItemView::Chunk(c@)] + rest);
                    assert(spec_pump_items(frames).last() == rest.last());
                }
            },
            BodyFrameEvent::Trailers => {},
            BodyFrameEvent::ReadError(_) => {},
            BodyFrameEvent::End => {},
        }
    }
}

/// The synthesized plain-text error response used when a request cannot be
/// handed to the consumer (for instance when the queue has shut down).
pub fn error_response(status: u16, message: &str) -> (r: HttpResponse)
    ensures
        r@.status == spec_normalize_status(status),
        r@.headers =~= seq![("content-type"@, "text/plain"@)],
        r@.body_chunks =~= seq![message.spec_bytes()],
{
    let mut headers: Vec<(String, String)> = Vec::new();
    headers.push(("content-type".to_owned(), "text/plain".to_owned()));
    let mut body_chunks: Vec<Vec<u8>> = Vec::new();
    body_chunks.push(message.as_bytes_vec());
    HttpResponse { status: u16_to_status(status), headers, body_chunks }
}

} // verus!

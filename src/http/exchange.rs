//! The per-exchange orchestration: head phase, then body phase, with a fixed
//! fallback response when the head phase fails.
use vstd::prelude::*;

use crate::event::{headers_view, Event, HeaderLine};
use crate::http::error::ProtocolError;
use crate::http::response_body::{body_outcome, BodyPoll, HttpResponseBody};
use crate::http::response_head::{head_result_matches, response_start_of, HttpResponseStart};

verus! {

/// The status of the response sent when the head phase fails.
pub const FALLBACK_STATUS: u16 = 500;

/// The response handed to the transport once the head phase is over.
pub struct HttpResponse {
    pub status: u16,
    pub headers: Vec<HeaderLine>,
    pub body: HttpResponseBody,
    /// Whether the disconnect signal is fired, cutting off the request body.
    pub fire_disconnect: bool,
    /// The application error that led to the fallback response.
    pub error: Option<ProtocolError>,
}

/// A response built from a valid head: its status and headers, a body that
/// streams the outbound events, and the disconnect signal fired.
pub fn build_response(head: HttpResponseStart) -> (r: HttpResponse)
    ensures
        r.status == head.status,
        headers_view(r.headers@) == headers_view(head.headers@),
        r.body.open,
        r.fire_disconnect,
        r.error.is_none(),
{
    HttpResponse {
        status: head.status,
        headers: head.headers,
        body: HttpResponseBody::streaming(),
        fire_disconnect: true,
        error: None,
    }
}

/// The fallback response for a failed head phase: status 500, no headers, an
/// empty body, and the disconnect signal left alone.
pub fn handle_error(err: ProtocolError) -> (r: HttpResponse)
    ensures
        r.status == FALLBACK_STATUS,
        r.headers@.len() == 0,
        !r.body.open,
        !r.fire_disconnect,
        r.error == Some(err),
{
    HttpResponse {
        status: FALLBACK_STATUS,
        headers: Vec::new(),
        body: HttpResponseBody::new(),
        fire_disconnect: false,
        error: Some(err),
    }
}

/// The first event of a sequence, or `None` where it is empty.
pub open spec fn first_event(events: Seq<Event>) -> Option<Event> {
    if events.len() > 0 {
        Some(events[0])
    } else {
        None
    }
}

/// Whether a response is the one the head phase owes for its result.
pub open spec fn response_for(r: HttpResponse, head: Result<(u16, Seq<(Seq<u8>, Seq<u8>)>), ProtocolError>) -> bool {
    match head {
        Ok(h) => r.status == h.0 && headers_view(r.headers@) == h.1 && r.body.open
            && r.fire_disconnect && r.error.is_none(),
        Err(e) => r.status == FALLBACK_STATUS && r.headers@.len() == 0 && !r.body.open
            && !r.fire_disconnect && r.error == Some(e),
    }
}

/// The head phase of an exchange, from the first outbound event (`None`
/// where the channel closed first) to the response handed to the transport.
pub fn respond(first: Option<Event>) -> (r: HttpResponse)
    ensures
        response_for(r, response_start_of(first)),
{
    let head = HttpResponseStart::try_from(first);
    match head {
        Ok(h) => build_response(h),
        Err(e) => handle_error(e),
    }
}

/// The whole outcome of an exchange, as mathematical values: status,
/// headers, body chunks, the error that aborted the body, the error that led
/// to the fallback response, and whether the disconnect signal was fired.
pub type ExchangeView = (
    u16,
    Seq<(Seq<u8>, Seq<u8>)>,
    Seq<Seq<u8>>,
    Option<ProtocolError>,
    Option<ProtocolError>,
    bool,
);

/// The outcome of an exchange in which the application emits `outbound`, in
/// order, and then completes.
pub open spec fn exchange_of(outbound: Seq<Event>) -> ExchangeView {
    match response_start_of(first_event(outbound)) {
        Ok(h) => {
            let body = body_outcome(outbound.drop_first());
            (h.0, h.1, body.0, body.1, None, true)
        },
        Err(e) => (FALLBACK_STATUS, Seq::empty(), Seq::empty(), None, Some(e), false),
    }
}

/// The bytes of each chunk.
pub open spec fn chunks_view(chunks: Seq<Vec<u8>>) -> Seq<Seq<u8>> {
    chunks.map_values(|c: Vec<u8>| c@)
}

/// The record of a completed exchange.
pub struct ExchangeRecord {
    pub status: u16,
    pub headers: Vec<HeaderLine>,
    pub chunks: Vec<Vec<u8>>,
    pub body_error: Option<ProtocolError>,
    pub app_error: Option<ProtocolError>,
    pub disconnect_fired: bool,
}

impl ExchangeRecord {
    pub open spec fn view(&self) -> ExchangeView {
        (
            self.status,
            headers_view(self.headers@),
            chunks_view(self.chunks@),
            self.body_error,
            self.app_error,
            self.disconnect_fired,
        )
    }

    /// The whole response body: the chunks joined in order.
    pub fn body_bytes(&self) -> (r: Vec<u8>)
        ensures
            r@ == chunks_view(self.chunks@).flatten(),
    {
        let mut out: Vec<u8> = Vec::new();
        let mut i: usize = 0;
        while i < self.chunks.len()
            invariant
                i <= self.chunks.len(),
                out@ == chunks_view(self.chunks@).take(i as int).flatten(),
            decreases self.chunks.len() - i,
        {
            let ghost before = out@;
            let mut j: usize = 0;
            while j < self.chunks[i].len()
                invariant
                    i < self.chunks.len(),
                    j <= self.chunks[i as int].len(),
                    out@ == before + self.chunks[i as int]@.take(j as int),
                decreases self.chunks[i as int].len() - j,
            {
                out.push(self.chunks[i][j]);
                assert(self.chunks[i as int]@.take(j as int + 1) =~= self.chunks[i as int]@.take(
                    j as int,
                ).push(self.chunks[i as int]@[j as int]));
                j += 1;
            }
            let ghost pre = chunks_view(self.chunks@).take(i as int + 1);
            assert(pre =~= chunks_view(self.chunks@).take(i as int).push(self.chunks[i as int]@));
            proof {
                chunks_view(self.chunks@).take(i as int).lemma_flatten_push(self.chunks[i as int]@);
            }
            assert(self.chunks[i as int]@.take(self.chunks[i as int].len() as int) =~= self.chunks[i as int]@);
            i += 1;
        }
        assert(chunks_view(self.chunks@).take(self.chunks.len() as int) =~= chunks_view(
            self.chunks@,
        ));
        out
    }
}

/// Runs one exchange in which the application emits `outbound`, in order,
/// and then completes: the head phase reads the first event, and, where it
/// succeeds, the body phase reads the following ones until the body ends.
pub fn handle_request(outbound: Vec<Event>) -> (r: ExchangeRecord)
    ensures
        r.view() == exchange_of(outbound@),
{
    let ghost all = outbound@;
    let mut events = outbound;
    let first = if events.len() > 0 {
        Some(events.remove(0))
    } else {
        None
    };
    let ghost rest = if all.len() > 0 {
        all.drop_first()
    } else {
        Seq::empty()
    };
    assert(events@ =~= rest);
    let response = respond(first);
    let HttpResponse { status, headers, body, fire_disconnect, error } = response;
    let mut body = body;
    let mut chunks: Vec<Vec<u8>> = Vec::new();
    let mut body_error: Option<ProtocolError> = None;
    while body.is_open()
        invariant
            body.open ==> response_start_of(first_event(all)) is Ok,
            body.open ==> body_error is None,
            body.open ==> body_outcome(rest) == (
                chunks_view(chunks@) + body_outcome(events@).0,
                body_outcome(events@).1,
            ),
            !body.open && response_start_of(first_event(all)) is Ok ==> body_outcome(rest) == (
                chunks_view(chunks@),
                body_error,
            ),
            !body.open ==> chunks@.len() == 0 || response_start_of(first_event(all)) is Ok,
            body_error is Some ==> response_start_of(first_event(all)) is Ok,
        decreases events.len() + (if body.open {
            1int
        } else {
            0int
        }),
    {
        let ghost before = events@;
        let next = if events.len() > 0 {
            Some(events.remove(0))
        } else {
            None
        };
        assert(before.len() > 0 ==> events@ =~= before.drop_first());
        let polled = body.poll_data(next);
        match polled {
            BodyPoll::Chunk(c) => {
                chunks.push(c);
                assert(chunks_view(chunks@) =~= chunks_view(chunks@.drop_last()).push(c@));
            },
            BodyPoll::End => {},
            BodyPoll::Failed(e) => {
                body_error = Some(e);
            },
        }
        proof {
            if before.len() > 0 {
                assert(before[0] == next.unwrap());
            }
            assert(chunks_view(chunks@) + body_outcome(events@).0 =~= chunks_view(chunks@)
                + body_outcome(events@).0);
        }
    }
    ExchangeRecord {
        status,
        headers,
        chunks,
        body_error,
        app_error: error,
        disconnect_fired: fire_disconnect,
    }
}


/// The body never yields a chunk unless the first outbound event was
/// accepted as the response head.
pub proof fn lemma_no_body_before_head(outbound: Seq<Event>)
    ensures
        exchange_of(outbound).2.len() > 0 ==> outbound.len() > 0
            && outbound[0] is ResponseStart
            && response_start_of(Some(outbound[0])) is Ok
            && exchange_of(outbound).2 == body_outcome(outbound.drop_first()).0,
{
}

/// A response-body event before any response start fails the exchange with
/// a protocol error, and the fallback response is sent.
pub proof fn lemma_body_before_start_rejected(outbound: Seq<Event>)
    requires
        outbound.len() > 0,
        outbound[0] is ResponseBody,
    ensures
        exchange_of(outbound).4 == Some(ProtocolError::ResponseTypeMismatch),
        exchange_of(outbound).0 == FALLBACK_STATUS,
        exchange_of(outbound).2.len() == 0,
{
}

/// A second response start, read while the body is still open, aborts the
/// body with a protocol error.
pub proof fn lemma_second_start_rejected(outbound: Seq<Event>, k: int)
    requires
        1 <= k < outbound.len(),
        response_start_of(Some(outbound[0])) is Ok,
        outbound[k] is ResponseStart,
        forall|j: int| 1 <= j < k ==> (#[trigger] outbound[j] matches Event::ResponseBody { more_body, .. } && more_body),
    ensures
        exchange_of(outbound).3 == Some(ProtocolError::ResponseTypeMismatch),
{
    let rest = outbound.drop_first();
    assert forall|j: int| 0 <= j < k - 1 implies (#[trigger] rest[j] matches Event::ResponseBody { more_body, .. } && more_body) by {
        assert(rest[j] == outbound[j + 1]);
    }
    assert(rest[k - 1] == outbound[k]);
    crate::http::response_body::lemma_unexpected_event_aborts_body(rest, k - 1);
}

/// Replaying the same outbound events gives the same exchange outcome.
pub proof fn lemma_replay_deterministic(a: Seq<Event>, b: Seq<Event>)
    requires
        a == b,
    ensures
        exchange_of(a) == exchange_of(b),
{
}

} // verus!

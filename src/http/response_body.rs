//! The body phase: turning outbound events into a stream of body chunks.
use vstd::prelude::*;

use crate::event::Event;
use crate::http::error::ProtocolError;
use crate::http::response_message::HttpResponseMessage;

verus! {

/// What one pull of the body stream yields.
pub enum BodyPoll {
    /// A piece of the body.
    Chunk(Vec<u8>),
    /// The body is complete.
    End,
    /// The application broke the protocol: the body is aborted.
    Failed(ProtocolError),
}

/// The body stream of a response. While it is open, each pull reads the
/// next outbound event; once closed, further events are left unread.
pub struct HttpResponseBody {
    pub open: bool,
}

/// The chunks that the body phase yields from a sequence of outbound events,
/// and the protocol error that aborted it, if any. The phase stops after a
/// response-body event without `more_body`, or at the end of the events.
pub open spec fn body_outcome(events: Seq<Event>) -> (Seq<Seq<u8>>, Option<ProtocolError>)
    decreases events.len(),
{
    if events.len() == 0 {
        (Seq::empty(), None)
    } else {
        match events[0] {
            Event::ResponseBody { body, more_body } => if more_body {
                let rest = body_outcome(events.drop_first());
                (seq![body@] + rest.0, rest.1)
            } else {
                (seq![body@], None)
            },
            _ => (Seq::empty(), Some(ProtocolError::ResponseTypeMismatch)),
        }
    }
}

impl HttpResponseBody {
    /// An empty body: it yields nothing.
    pub fn new() -> (r: HttpResponseBody)
        ensures
            !r.open,
    {
        HttpResponseBody { open: false }
    }

    /// A body that reads its chunks from the outbound events.
    pub fn streaming() -> (r: HttpResponseBody)
        ensures
            r.open,
    {
        HttpResponseBody { open: true }
    }

    /// Whether the stream still reads outbound events.
    pub fn is_open(&self) -> (r: bool)
        ensures
            r == self.open,
    {
        self.open
    }

    /// Pulls the stream once, given the next outbound event (`None` where the
    /// channel has closed). A closed stream ends without reading the event.
    /// A response-body event yields its bytes and closes the stream when no
    /// more body follows; the end of the channel ends the stream; any other
    /// event aborts it.
    pub fn poll_data(&mut self, next: Option<Event>) -> (r: BodyPoll)
        ensures
            !old(self).open ==> r is End && !final(self).open,
            old(self).open ==> match next {
                None => r is End && !final(self).open,
                Some(Event::ResponseBody { body, more_body }) => (r matches BodyPoll::Chunk(c)
                    && c@ == body@) && final(self).open == more_body,
                Some(_) => r == BodyPoll::Failed(ProtocolError::ResponseTypeMismatch)
                    && !final(self).open,
            },
    {
        if !self.open {
            return BodyPoll::End;
        }
        match next {
            None => {
                self.open = false;
                BodyPoll::End
            },
            Some(event) => {
                match HttpResponseMessage::try_from(event) {
                    Ok(message) => {
                        if message.is_last_message() {
                            self.open = false;
                        }
                        BodyPoll::Chunk(message.data)
                    },
                    Err(e) => {
                        self.open = false;
                        BodyPoll::Failed(e)
                    },
                }
            },
        }
    }
}


/// An event that is not a response-body event, met while the body phase is
/// still reading (every earlier event announced more body), aborts the body
/// with a protocol error.
pub proof fn lemma_unexpected_event_aborts_body(events: Seq<Event>, k: int)
    requires
        0 <= k < events.len(),
        !(events[k] is ResponseBody),
        forall|j: int| 0 <= j < k ==> (#[trigger] events[j] matches Event::ResponseBody { more_body, .. } && more_body),
    ensures
        body_outcome(events).1 == Some(ProtocolError::ResponseTypeMismatch),
    decreases k,
{
    if k > 0 {
        let rest = events.drop_first();
        assert forall|j: int| 0 <= j < k - 1 implies (#[trigger] rest[j] matches Event::ResponseBody { more_body, .. } && more_body) by {
            assert(rest[j] == events[j + 1]);
        }
        lemma_unexpected_event_aborts_body(rest, k - 1);
        assert(events[0] matches Event::ResponseBody { more_body, .. } && more_body);
    }
}

} // verus!

//! A response-body event, as the body phase reads it.
use vstd::prelude::*;

use crate::event::Event;
use crate::http::error::ProtocolError;

verus! {

/// A piece of the response body and whether more follows.
pub struct HttpResponseMessage {
    pub data: Vec<u8>,
    pub more: bool,
}

/// What the body phase reads from an outbound event: its bytes and its
/// `more_body` flag, or a mismatch for any other kind of event.
pub open spec fn response_message_of(e: Event) -> Result<(Seq<u8>, bool), ProtocolError> {
    match e {
        Event::ResponseBody { body, more_body } => Ok((body@, more_body)),
        _ => Err(ProtocolError::ResponseTypeMismatch),
    }
}

impl HttpResponseMessage {
    /// Reads a response-body event; any other kind of event is refused.
    pub fn try_from(event: Event) -> (r: Result<HttpResponseMessage, ProtocolError>)
        ensures
            match r {
                Ok(m) => response_message_of(event) == Ok::<(Seq<u8>, bool), ProtocolError>(
                    (m.data@, m.more),
                ),
                Err(e) => response_message_of(event) == Err::<(Seq<u8>, bool), ProtocolError>(e),
            },
    {
        match event {
            Event::ResponseBody { body, more_body } => Ok(HttpResponseMessage { data: body, more: more_body }),
            _ => Err(ProtocolError::ResponseTypeMismatch),
        }
    }

    /// Whether this is the last piece of the body.
    pub fn is_last_message(&self) -> (r: bool)
        ensures
            r == !self.more,
    {
        !self.more
    }
}

} // verus!

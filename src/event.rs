//! Events that cross the two channels between transport and application.
use vstd::prelude::*;

verus! {

/// A header line as a pair of byte strings: name, then value.
pub type HeaderLine = (Vec<u8>, Vec<u8>);

/// An event exchanged with the application task.
#[derive(Debug, PartialEq, Eq)]
pub enum Event {
    /// `http.request`: a piece of the request body.
    RequestBody { body: Vec<u8>, more_body: bool },
    /// `http.disconnect`: the exchange will deliver no more request body.
    Disconnect,
    /// `http.response.start`: the status line and headers of the response.
    ResponseStart { status: i64, headers: Vec<HeaderLine> },
    /// `http.response.body`: a piece of the response body.
    ResponseBody { body: Vec<u8>, more_body: bool },
    /// A message that names no known kind, or lacks a field that its kind
    /// needs.
    Malformed,
}

/// The discriminant of an event.
#[derive(PartialEq, Eq, Structural, Clone, Copy, Debug)]
pub enum EventKind {
    RequestBody,
    Disconnect,
    ResponseStart,
    ResponseBody,
    Malformed,
}

/// A header line as mathematical byte sequences.
pub open spec fn header_view(h: (Vec<u8>, Vec<u8>)) -> (Seq<u8>, Seq<u8>) {
    (h.0@, h.1@)
}

/// The header lines of a list, as mathematical byte sequences.
pub open spec fn headers_view(hs: Seq<(Vec<u8>, Vec<u8>)>) -> Seq<(Seq<u8>, Seq<u8>)> {
    hs.map_values(|h: (Vec<u8>, Vec<u8>)| header_view(h))
}

impl Event {
    pub open spec fn spec_kind(&self) -> EventKind {
        match self {
            Event::RequestBody { .. } => EventKind::RequestBody,
            Event::Disconnect => EventKind::Disconnect,
            Event::ResponseStart { .. } => EventKind::ResponseStart,
            Event::ResponseBody { .. } => EventKind::ResponseBody,
            Event::Malformed => EventKind::Malformed,
        }
    }

    /// The discriminant of this event.
    #[verifier::when_used_as_spec(spec_kind)]
    pub fn kind(&self) -> (r: EventKind)
        ensures
            r == self.spec_kind(),
    {
        match self {
            Event::RequestBody { .. } => EventKind::RequestBody,
            Event::Disconnect => EventKind::Disconnect,
            Event::ResponseStart { .. } => EventKind::ResponseStart,
            Event::ResponseBody { .. } => EventKind::ResponseBody,
            Event::Malformed => EventKind::Malformed,
        }
    }
}

/// The `type` name of each kind of message; a malformed message has none.
pub open spec fn message_type_of(k: EventKind) -> Option<Seq<char>> {
    match k {
        EventKind::RequestBody => Some("http.request"@),
        EventKind::Disconnect => Some("http.disconnect"@),
        EventKind::ResponseStart => Some("http.response.start"@),
        EventKind::ResponseBody => Some("http.response.body"@),
        EventKind::Malformed => None,
    }
}

impl EventKind {
    /// The `type` name of messages of this kind.
    pub fn message_type(&self) -> (r: Option<&'static str>)
        ensures
            match r {
                Some(n) => message_type_of(*self) == Some(n@),
                None => message_type_of(*self) is None,
            },
    {
        match self {
            EventKind::RequestBody => Some("http.request"),
            EventKind::Disconnect => Some("http.disconnect"),
            EventKind::ResponseStart => Some("http.response.start"),
            EventKind::ResponseBody => Some("http.response.body"),
            EventKind::Malformed => None,
        }
    }

    /// The kind of messages whose `type` is `name`; a name of no known kind
    /// gives `Malformed`.
    pub fn from_message_type(name: &String) -> (r: EventKind)
        ensures
            r != EventKind::Malformed ==> message_type_of(r) == Some(name@),
            r == EventKind::Malformed ==> forall|k: EventKind| message_type_of(k) != Some(name@),
    {
        proof {
            reveal_strlit("http.request");
            reveal_strlit("http.disconnect");
            reveal_strlit("http.response.start");
            reveal_strlit("http.response.body");
        }
        if *name == "http.request".to_owned() {
            EventKind::RequestBody
        } else if *name == "http.disconnect".to_owned() {
            EventKind::Disconnect
        } else if *name == "http.response.start".to_owned() {
            EventKind::ResponseStart
        } else if *name == "http.response.body".to_owned() {
            EventKind::ResponseBody
        } else {
            EventKind::Malformed
        }
    }
}

} // verus!

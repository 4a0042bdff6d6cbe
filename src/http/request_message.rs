//! The request translator: turns the transport's request body into request
//! events, cut short by the disconnect signal.
use vstd::prelude::*;

use crate::event::Event;

verus! {

/// What the transport side hands the translator, one item at a time.
pub enum RequestInput {
    /// A chunk of the request body; `end_of_stream` tells that the transport
    /// knows no more body follows it.
    Data { bytes: Vec<u8>, end_of_stream: bool },
    /// Reading the body failed.
    ReadError,
    /// The body stream ended.
    StreamEnd,
    /// The disconnect signal fired.
    DisconnectSignal,
}

/// The phase of a request translator.
#[derive(PartialEq, Eq, Structural, Clone, Copy, Debug)]
pub enum TranslatorState {
    /// Body chunks are forwarded.
    Forwarding,
    /// The terminal request-body event was emitted.
    BodyEnded,
    /// The disconnect event was emitted: nothing more follows.
    Disconnected,
}

/// A request event as a mathematical value: `Some((body, more_body))` for a
/// request-body event, `None` for a disconnect event.
pub type InboundView = Option<(Seq<u8>, bool)>;

/// The view of an event that the translator emits.
pub open spec fn inbound_view(e: Event) -> InboundView {
    match e {
        Event::RequestBody { body, more_body } => Some((body@, more_body)),
        _ => None,
    }
}

/// The views of a sequence of events.
pub open spec fn inbound_views(es: Seq<Event>) -> Seq<InboundView> {
    es.map_values(|e: Event| inbound_view(e))
}

/// The phase that follows `s` once `input` is handled.
pub open spec fn next_state(s: TranslatorState, input: RequestInput) -> TranslatorState {
    match s {
        TranslatorState::Disconnected => TranslatorState::Disconnected,
        _ => match input {
            RequestInput::DisconnectSignal => TranslatorState::Disconnected,
            RequestInput::Data { end_of_stream, .. } => if end_of_stream {
                TranslatorState::BodyEnded
            } else {
                s
            },
            _ => TranslatorState::BodyEnded,
        },
    }
}

/// The event emitted in phase `s` for `input`, if any. While forwarding,
/// a chunk becomes a request-body event, with `more_body` unless the stream
/// is known to end there; a read error or the end of the stream becomes the
/// terminal empty request-body event. Once the body has ended, only the
/// disconnect signal still yields an event; once disconnected, nothing does.
pub open spec fn output(s: TranslatorState, input: RequestInput) -> Option<InboundView> {
    match s {
        TranslatorState::Disconnected => None,
        TranslatorState::BodyEnded => match input {
            RequestInput::DisconnectSignal => Some(None),
            _ => None,
        },
        TranslatorState::Forwarding => match input {
            RequestInput::DisconnectSignal => Some(None),
            RequestInput::Data { bytes, end_of_stream } => Some(Some((bytes@, !end_of_stream))),
            _ => Some(Some((Seq::empty(), false))),
        },
    }
}

/// The phase reached and the events emitted when `inputs` are handled in
/// order, starting in phase `s`.
pub open spec fn run(s: TranslatorState, inputs: Seq<RequestInput>) -> (TranslatorState, Seq<InboundView>)
    decreases inputs.len(),
{
    if inputs.len() == 0 {
        (s, Seq::empty())
    } else {
        let prev = run(s, inputs.drop_last());
        let emitted = match output(prev.0, inputs.last()) {
            Some(v) => prev.1.push(v),
            None => prev.1,
        };
        (next_state(prev.0, inputs.last()), emitted)
    }
}

/// A request-body event.
pub struct HttpRequestMessage {
    pub data: Vec<u8>,
    pub more: bool,
}

impl HttpRequestMessage {
    /// The event that carries this message.
    pub fn into_event(self) -> (r: Event)
        ensures
            inbound_view(r) == Some((self.data@, self.more)),
            r is RequestBody,
    {
        Event::RequestBody { body: self.data, more_body: self.more }
    }

    /// The terminal message: no bytes, and no more body.
    pub fn terminal() -> (r: HttpRequestMessage)
        ensures
            r.data@.len() == 0,
            !r.more,
    {
        HttpRequestMessage { data: Vec::new(), more: false }
    }

    /// Translates a whole sequence of inputs, in order, into the request events
    /// that a fresh translator yields for them.
    pub fn stream_body(inputs: Vec<RequestInput>) -> (r: Vec<Event>)
        ensures
            inbound_views(r@) == run(TranslatorState::Forwarding, inputs@).1,
            forall|i: int| 0 <= i < r@.len() ==> (#[trigger] r@[i] is RequestBody || r@[i] is Disconnect),
    {
        let ghost all = inputs@;
        assert(all.len() == inputs.len());
        let mut rest = inputs;
        let mut translator = RequestTranslator::new();
        let mut out: Vec<Event> = Vec::new();
        let mut i: usize = 0;
        while rest.len() > 0
            invariant
                i <= all.len(),
                all.len() <= usize::MAX,
                rest@ == all.skip(i as int),
                translator.state == run(TranslatorState::Forwarding, all.take(i as int)).0,
                inbound_views(out@) == run(TranslatorState::Forwarding, all.take(i as int)).1,
                forall|j: int| 0 <= j < out@.len() ==> (#[trigger] out@[j] is RequestBody || out@[j] is Disconnect),
            decreases rest.len(),
        {
            let input = rest.remove(0);
            let ghost pre = all.take(i as int + 1);
            assert(pre.drop_last() =~= all.take(i as int));
            assert(pre.last() == input);
            match translator.step(input) {
                Some(e) => {
                    out.push(e);
                    assert(inbound_views(out@) =~= inbound_views(out@.drop_last()).push(inbound_view(e)));
                },
                None => {},
            }
            i += 1;
            assert(rest@ =~= all.skip(i as int));
        }
        assert(all.take(i as int) =~= all);
        out
    }
}

/// Translates one exchange's request body into request events.
pub struct RequestTranslator {
    pub state: TranslatorState,
}

impl RequestTranslator {
    /// A translator that forwards body chunks.
    pub fn new() -> (r: RequestTranslator)
        ensures
            r.state == TranslatorState::Forwarding,
    {
        RequestTranslator { state: TranslatorState::Forwarding }
    }

    /// Handles one input and returns the event it yields, if any.
    pub fn step(&mut self, input: RequestInput) -> (r: Option<Event>)
        ensures
            final(self).state == next_state(old(self).state, input),
            match r {
                Some(e) => output(old(self).state, input) == Some(inbound_view(e))
                    && (e is RequestBody || e is Disconnect),
                None => output(old(self).state, input) is None,
            },
    {
        match self.state {
            TranslatorState::Disconnected => None,
            TranslatorState::BodyEnded => match input {
                RequestInput::DisconnectSignal => {
                    self.state = TranslatorState::Disconnected;
                    Some(Event::Disconnect)
                },
                _ => None,
            },
            TranslatorState::Forwarding => match input {
                RequestInput::DisconnectSignal => {
                    self.state = TranslatorState::Disconnected;
                    Some(Event::Disconnect)
                },
                RequestInput::Data { bytes, end_of_stream } => {
                    if end_of_stream {
                        self.state = TranslatorState::BodyEnded;
                    }
                    Some(HttpRequestMessage { data: bytes, more: !end_of_stream }.into_event())
                },
                _ => {
                    self.state = TranslatorState::BodyEnded;
                    Some(HttpRequestMessage::terminal().into_event())
                },
            },
        }
    }
}


/// Once a disconnect event is emitted the translator stays disconnected, and
/// it is the last event emitted: no request-body event follows it.
pub proof fn lemma_disconnect_is_last(s: TranslatorState, inputs: Seq<RequestInput>)
    ensures
        s == TranslatorState::Disconnected ==> run(s, inputs).0 == TranslatorState::Disconnected
            && run(s, inputs).1.len() == 0,
        forall|k: int| 0 <= k < run(s, inputs).1.len() && #[trigger] run(s, inputs).1[k] is None
            ==> k == run(s, inputs).1.len() - 1 && run(s, inputs).0 == TranslatorState::Disconnected,
    decreases inputs.len(),
{
    if inputs.len() > 0 {
        lemma_disconnect_is_last(s, inputs.drop_last());
    }
}


/// After the terminal request-body event (no more body), no request-body
/// event follows: only a disconnect event can.
pub proof fn lemma_terminal_body_event_is_final(inputs: Seq<RequestInput>)
    ensures
        forall|k: int, j: int|
            0 <= k < j < run(TranslatorState::Forwarding, inputs).1.len()
                && (#[trigger] run(TranslatorState::Forwarding, inputs).1[k] matches Some(
                b,
            ) && !b.1) ==> #[trigger] run(TranslatorState::Forwarding, inputs).1[j] is None,
        (exists|k: int|
            0 <= k < run(TranslatorState::Forwarding, inputs).1.len() && (
            #[trigger] run(TranslatorState::Forwarding, inputs).1[k] matches Some(b) && !b.1))
            ==> run(TranslatorState::Forwarding, inputs).0 != TranslatorState::Forwarding,
    decreases inputs.len(),
{
    if inputs.len() > 0 {
        lemma_terminal_body_event_is_final(inputs.drop_last());
        lemma_disconnect_is_last(TranslatorState::Forwarding, inputs.drop_last());
    }
}

} // verus!

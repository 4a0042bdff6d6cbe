//! A single-slot channel: the buffer of each direction of an exchange.
use vstd::prelude::*;

use crate::event::Event;

verus! {

/// What became of an offered event.
pub enum Offer {
    /// The event is in the slot.
    Accepted,
    /// The slot is taken: the event is handed back, to be offered again once
    /// the consumer has taken the one before it.
    Full(Event),
    /// The consumer is gone: the event is handed back.
    Closed(Event),
}

/// What a take from the mailbox found.
pub enum Take {
    /// The event that was in the slot.
    Item(Event),
    /// Nothing yet: the producer may still send.
    Empty,
    /// Nothing, and nothing more will come.
    Exhausted,
}

/// A channel with room for one event. A producer's next event is refused
/// until the consumer has taken the previous one.
pub struct Mailbox {
    slot: Option<Event>,
    closed: bool,
}

impl Mailbox {
    /// The events held and not yet taken, oldest first.
    pub closed spec fn view(&self) -> Seq<Event> {
        match self.slot {
            Some(e) => seq![e],
            None => Seq::empty(),
        }
    }

    /// Whether the mailbox is closed to further events.
    pub closed spec fn is_closed(&self) -> bool {
        self.closed
    }

    /// An empty, open mailbox.
    pub fn new() -> (r: Mailbox)
        ensures
            r@.len() == 0,
            !r.is_closed(),
    {
        Mailbox { slot: None, closed: false }
    }

    /// Offers an event. It is accepted only where the mailbox is open and
    /// holds nothing.
    pub fn offer(&mut self, event: Event) -> (r: Offer)
        ensures
            final(self).is_closed() == old(self).is_closed(),
            old(self).is_closed() ==> r == Offer::Closed(event) && final(self)@ == old(self)@,
            !old(self).is_closed() && old(self)@.len() > 0 ==> r == Offer::Full(event)
                && final(self)@ == old(self)@,
            !old(self).is_closed() && old(self)@.len() == 0 ==> r is Accepted && final(self)@
                == seq![event],
    {
        if self.closed {
            Offer::Closed(event)
        } else if self.slot.is_some() {
            Offer::Full(event)
        } else {
            self.slot = Some(event);
            Offer::Accepted
        }
    }

    /// Takes the held event, if any.
    pub fn take(&mut self) -> (r: Take)
        ensures
            final(self).is_closed() == old(self).is_closed(),
            final(self)@.len() == 0,
            old(self)@.len() > 0 ==> r == Take::Item(old(self)@[0]),
            old(self)@.len() == 0 && old(self).is_closed() ==> r is Exhausted,
            old(self)@.len() == 0 && !old(self).is_closed() ==> r is Empty,
    {
        match self.slot.take() {
            Some(e) => Take::Item(e),
            None => if self.closed {
                Take::Exhausted
            } else {
                Take::Empty
            },
        }
    }

    /// Closes the mailbox: later offers are refused; an event already held
    /// can still be taken.
    pub fn close(&mut self)
        ensures
            final(self).is_closed(),
            final(self)@ == old(self)@,
    {
        self.closed = true;
    }
}

/// A mailbox never holds more than one event that has not been taken.
pub proof fn lemma_occupancy_at_most_one(m: &Mailbox)
    ensures
        m@.len() <= 1,
{
}

} // verus!

//! The queue between the listener that receives messages from the device and
//! the caller that polls for events.
//!
//! The listener decodes each message as it arrives and appends the event; a
//! poll hands out everything that has accumulated and leaves the queue empty,
//! so that every event is delivered once. Whoever shares a buffer between
//! threads guards it with a lock: a poll is one call, and so is an arrival.

use vstd::prelude::*;
use crate::codec::{event_of, parse_message, Event};

verus! {

/// Events that have arrived and have not been polled yet, oldest first.
pub struct EventBuffer {
    events: Vec<Event>,
}

impl View for EventBuffer {
    type V = Seq<Event>;

    closed spec fn view(&self) -> Seq<Event> {
        self.events@
    }
}

/// The pending events after `message` has arrived: one more if the message
/// reports an event, the same otherwise.
pub open spec fn after_arrival(pending: Seq<Event>, message: Seq<u8>) -> Seq<Event> {
    match event_of(message) {
        Some(event) => pending.push(event),
        None => pending,
    }
}

/// What a poll of `pending` events hands out, and what it leaves pending.
pub open spec fn after_poll(pending: Seq<Event>) -> (Seq<Event>, Seq<Event>) {
    (pending, Seq::empty())
}

/// The events that a run of three-byte messages reports, in order of
/// arrival.
pub open spec fn events_of(messages: Seq<[u8; 3]>) -> Seq<Event>
    decreases messages.len(),
{
    if messages.len() == 0 {
        Seq::empty()
    } else {
        after_arrival(events_of(messages.drop_last()), messages.last()@)
    }
}

impl EventBuffer {
    /// A buffer with nothing pending.
    pub fn new() -> (buffer: EventBuffer)
        ensures
            buffer@ == Seq::<Event>::empty(),
    {
        EventBuffer { events: Vec::new() }
    }

    /// Number of pending events.
    pub fn len(&self) -> (count: usize)
        ensures
            count == self@.len(),
    {
        self.events.len()
    }

    /// Takes in one message from the device. Returns whether it reported an
    /// event; a message that reports none is dropped.
    pub fn receive(&mut self, message: &[u8]) -> (reported: bool)
        ensures
            final(self)@ == after_arrival(old(self)@, message@),
            reported == event_of(message@).is_some(),
    {
        match parse_message(message) {
            Some(event) => {
                self.events.push(event);
                true
            },
            None => false,
        }
    }

    /// Hands out the pending events, oldest first, and leaves none pending.
    pub fn poll(&mut self) -> (events: Vec<Event>)
        ensures
            events@ == after_poll(old(self)@).0,
            final(self)@ == after_poll(old(self)@).1,
    {
        let mut events: Vec<Event> = Vec::new();
        core::mem::swap(&mut self.events, &mut events);
        events
    }
}

/// Decodes a run of three-byte messages, dropping those that report no
/// event.
pub fn parse_messages(messages: &[[u8; 3]]) -> (events: Vec<Event>)
    ensures
        events@ == events_of(messages@),
{
    let mut events: Vec<Event> = Vec::new();
    let mut index: usize = 0;
    while index < messages.len()
        invariant
            index <= messages.len(),
            events@ == events_of(messages@.take(index as int)),
        decreases messages.len() - index,
    {
        let found = parse_message(messages[index].as_slice());
        assert(messages@.take(index + 1).drop_last() =~= messages@.take(index as int));
        if let Some(event) = found {
            events.push(event);
        }
        index += 1;
    }
    assert(messages@.take(index as int) =~= messages@);
    events
}

/// A poll hands out every pending event and a second poll, with no arrival
/// in between, hands out none.
pub proof fn lemma_second_poll_is_empty(pending: Seq<Event>)
    ensures
        after_poll(pending).0 == pending,
        after_poll(after_poll(pending).1).0 == Seq::<Event>::empty(),
{
}

/// Arrivals only append: what was pending stays pending, in its order, ahead
/// of the new event.
pub proof fn lemma_arrival_appends(pending: Seq<Event>, message: Seq<u8>)
    ensures
        pending.is_prefix_of(after_arrival(pending, message)),
        after_arrival(pending, message).len() <= pending.len() + 1,
{
}

} // verus!

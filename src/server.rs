use vstd::prelude::*;

use crate::event::{Event, EventOwner};

verus! {

/// A server-side pipe instance together with the pooled event its
/// connect-accept signals.
pub struct ServerNamedPipeEvent<S>(S, EventOwner);

impl<S> ServerNamedPipeEvent<S> {
    pub closed spec fn pipe_spec(&self) -> S {
        self.0
    }

    pub closed spec fn event_spec(&self) -> Event {
        self.1.0
    }

    pub fn new(pipe: S, event: EventOwner) -> (r: Self)
        ensures
            r.pipe_spec() == pipe,
            r.event_spec() == event.0,
    {
        ServerNamedPipeEvent(pipe, event)
    }

    pub fn pipe_mut(&mut self) -> (r: &mut S)
        ensures
            *r == old(self).pipe_spec(),
            final(self).pipe_spec() == *final(r),
            final(self).event_spec() == old(self).event_spec(),
    {
        &mut self.0
    }

    pub fn pipe_ref(&self) -> (r: &S)
        ensures
            *r == self.pipe_spec(),
    {
        &self.0
    }

    pub fn event(&self) -> (r: Event)
        ensures
            r == self.event_spec(),
    {
        self.1.duplicate()
    }
}

/// What a signal of the acceptor's wait set means.
#[derive(Clone, Copy, Debug, PartialEq, Eq, Structural)]
pub enum AcceptorSignal {
    /// The server is closing: the acceptor stops.
    Interrupt,
    /// New instances were created: their events are to be added.
    Grow,
    /// The instance in this slot completed a connect-accept.
    Connection(usize),
}

/// The wait set of a server's acceptor: slot 0 is the interrupt event,
/// slot 1 the grow-notify event, and each later slot, in creation order, the
/// connect event of one pipe instance.
pub struct Acceptor {
    events: Vec<Event>,
}

impl View for Acceptor {
    type V = Seq<Event>;

    closed spec fn view(&self) -> Seq<Event> {
        self.events@
    }
}

/// The number of fixed slots before the pipe instances' events.
pub const FIXED_SLOTS: usize = 2;

impl Acceptor {
    pub fn new(interrupt: Event, grow: Event) -> (r: Self)
        ensures
            r@ == seq![interrupt, grow],
    {
        let mut events: Vec<Event> = Vec::new();
        events.push(interrupt);
        events.push(grow);
        assert(events@ =~= seq![interrupt, grow]);
        Acceptor { events }
    }

    /// The events to wait on, in slot order.
    pub fn events(&self) -> (r: &[Event])
        ensures
            r@ == self@,
    {
        self.events.as_slice()
    }

    /// Adds newly registered instance events behind the present ones, in
    /// order, without disturbing the slots already handed out.
    pub fn extend(&mut self, new_events: &mut Vec<Event>)
        ensures
            final(self)@ == old(self)@ + old(new_events)@,
            final(new_events)@ == Seq::<Event>::empty(),
    {
        self.events.append(new_events);
    }

    /// What a signaled slot means.
    pub fn signal(&self, index: usize) -> (r: AcceptorSignal)
        ensures
            index == 0 ==> r == AcceptorSignal::Interrupt,
            index == 1 ==> r == AcceptorSignal::Grow,
            index >= 2 ==> r == AcceptorSignal::Connection((index - 2) as usize),
    {
        if index == 0 {
            AcceptorSignal::Interrupt
        } else if index == 1 {
            AcceptorSignal::Grow
        } else {
            AcceptorSignal::Connection(index - FIXED_SLOTS)
        }
    }
}

/// How many instances a growth step adds: as many as there are, and at
/// least one.
pub fn grow_count(current: usize) -> (r: usize)
    ensures
        r == if current == 0 { 1 } else { current },
{
    if current == 0 {
        1
    } else {
        current
    }
}

} // verus!

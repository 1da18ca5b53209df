use vstd::prelude::*;

verus! {

/// A value handle to a binary signaled/unsignaled waitable object, held as
/// the raw handle value. Ownership is tracked outside the handle.
#[derive(Clone, Copy, Default, Debug, PartialEq, Eq, Structural)]
pub struct Event(usize);

impl Event {
    pub fn new(handle: usize) -> (r: Self)
        ensures
            r.handle_spec() == handle,
    {
        Event(handle)
    }

    /// The raw handle value.
    pub closed spec fn handle_spec(self) -> usize {
        self.0
    }

    pub fn handle(self) -> (r: usize)
        ensures
            r == self.handle_spec(),
    {
        self.0
    }

    /// The event that stands for no object.
    pub fn null() -> (r: Self)
        ensures
            r.handle_spec() == 0,
    {
        Event(0)
    }

    pub fn is_null(self) -> (r: bool)
        ensures
            r == (self.handle_spec() == 0),
    {
        self.0 == 0
    }
}

/// The free list of recyclable events. It is empty when made, grows as
/// events are returned, and hands out the most recently returned event first.
pub struct EventManager {
    free: Vec<Event>,
}

impl View for EventManager {
    type V = Seq<Event>;

    closed spec fn view(&self) -> Seq<Event> {
        self.free@
    }
}

/// The free list after a registration: the last entry is handed out.
pub open spec fn after_register(free: Seq<Event>) -> Seq<Event> {
    if free.len() == 0 {
        free
    } else {
        free.drop_last()
    }
}

/// The event a registration hands out of a free list, if it holds one.
pub open spec fn recycled(free: Seq<Event>) -> Option<Event> {
    if free.len() == 0 {
        None
    } else {
        Some(free.last())
    }
}

impl EventManager {
    pub fn new() -> (r: Self)
        ensures
            r@ == Seq::<Event>::empty(),
    {
        EventManager { free: Vec::new() }
    }

    pub fn len(&self) -> (r: usize)
        ensures
            r == self@.len(),
    {
        self.free.len()
    }

    /// Hands out the most recently returned event, if any. The caller resets
    /// a recycled event to unsignaled before use (and returns it with
    /// `unregister` if that fails); on `None` the caller creates a fresh one.
    pub fn register(&mut self) -> (r: Option<Event>)
        ensures
            r == recycled(old(self)@),
            final(self)@ == after_register(old(self)@),
    {
        self.free.pop()
    }

    /// Hands out up to `n` recycled events at once, in the order `n`
    /// successive registrations would; the caller creates the `n - r.len()`
    /// that are missing.
    pub fn register_n(&mut self, n: usize) -> (r: Vec<Event>)
        ensures
            r@.len() == if n < old(self)@.len() { n as int } else { old(self)@.len() as int },
            forall|i: int| 0 <= i < r@.len() ==> r@[i] == old(self)@[old(self)@.len() - 1 - i],
            final(self)@ == old(self)@.take(old(self)@.len() - r@.len()),
    {
        let mut r: Vec<Event> = Vec::new();
        while r.len() < n && self.free.len() > 0
            invariant
                r@.len() <= n,
                r@.len() + self.free@.len() == old(self)@.len(),
                self.free@ == old(self)@.take(old(self)@.len() - r@.len()),
                forall|i: int| 0 <= i < r@.len() ==> r@[i] == old(self)@[old(self)@.len() - 1 - i],
            decreases self.free@.len(),
        {
            let e = self.free.pop().unwrap();
            r.push(e);
        }
        r
    }

    /// Returns an event to the free list without releasing its object.
    pub fn unregister(&mut self, event: Event)
        ensures
            final(self)@ == old(self)@.push(event),
    {
        self.free.push(event);
    }

    /// Returns several events, in order: the rollback of a partial
    /// `register_n`.
    pub fn unregister_all(&mut self, events: &[Event])
        ensures
            final(self)@ == old(self)@ + events@,
    {
        let mut i: usize = 0;
        while i < events.len()
            invariant
                i <= events@.len(),
                self.free@ == old(self)@ + events@.take(i as int),
            decreases events@.len() - i,
        {
            self.free.push(events[i]);
            i = i + 1;
            assert(events@.take(i as int) == events@.take(i - 1 as int).push(events@[i - 1]));
        }
        assert(events@.take(events@.len() as int) == events@);
    }

    /// Empties the free list, handing out every event for its object to be
    /// released, most recently returned first.
    pub fn close_events(&mut self) -> (r: Vec<Event>)
        ensures
            r@.len() == old(self)@.len(),
            forall|i: int| 0 <= i < r@.len() ==> r@[i] == old(self)@[old(self)@.len() - 1 - i],
            final(self)@ == Seq::<Event>::empty(),
    {
        let n = self.free.len();
        let r = self.register_n(n);
        r
    }
}

/// Registering after returning an event recycles that very event, so no
/// second object is created, and leaves the free list as it was; the caller
/// resets the recycled event before use.
pub proof fn lemma_unregister_then_register_recycles(free: Seq<Event>, e: Event)
    ensures
        recycled(free.push(e)) == Some(e),
        after_register(free.push(e)) == free,
{
    assert(free.push(e).drop_last() =~= free);
}

/// The unique holder of one event, which goes back to the pool on release.
#[derive(Clone, Copy, Default, Debug, PartialEq, Eq, Structural)]
pub struct EventOwner(pub Event);

impl EventOwner {
    pub fn duplicate(&self) -> (r: Event)
        ensures
            r == self.0,
    {
        self.0
    }

    /// Returns the held event to the pool; nothing happens if no event was
    /// ever assigned.
    pub fn release(self, pool: &mut EventManager)
        ensures
            self.0.handle_spec() == 0 ==> final(pool)@ == old(pool)@,
            self.0.handle_spec() != 0 ==> final(pool)@ == old(pool)@.push(self.0),
    {
        if !self.0.is_null() {
            pool.unregister(self.0);
        }
    }
}

} // verus!

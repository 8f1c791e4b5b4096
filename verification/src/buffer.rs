//! A bounded, order-preserving buffer of the most recent events.

use std::collections::VecDeque;
use vstd::prelude::*;

use crate::event::Event;

verus! {

/// The number of events that a buffer made by [`EventBuffer::new`] retains.
pub const DEFAULT_CAPACITY: usize = 99;

/// The last `capacity` entries of `events`, in their order; all of them when
/// there are no more than `capacity`.
pub open spec fn most_recent<T>(events: Seq<T>, capacity: nat) -> Seq<T> {
    if events.len() <= capacity {
        events
    } else {
        events.subrange(events.len() - capacity, events.len() as int)
    }
}

/// The contents of a buffer of the given capacity after one push.
pub open spec fn after_push<T>(contents: Seq<T>, event: T, capacity: nat) -> Seq<T> {
    most_recent(contents.push(event), capacity)
}

/// The contents of a buffer of the given capacity after pushing `events` one
/// by one, first to last.
pub open spec fn after_pushes<T>(contents: Seq<T>, events: Seq<T>, capacity: nat) -> Seq<T>
    decreases events.len(),
{
    if events.len() == 0 {
        contents
    } else {
        after_push(after_pushes(contents, events.drop_last(), capacity), events.last(), capacity)
    }
}

/// Pushing a run of events one by one onto a buffer that is within its
/// capacity leaves exactly the most recent `capacity` entries of the old
/// contents followed by the run, oldest first.
pub proof fn lemma_pushes_keep_most_recent<T>(contents: Seq<T>, events: Seq<T>, capacity: nat)
    requires
        contents.len() <= capacity,
    ensures
        after_pushes(contents, events, capacity) == most_recent(contents + events, capacity),
        after_pushes(contents, events, capacity).len() <= capacity,
    decreases events.len(),
{
    if events.len() == 0 {
        assert(contents + events =~= contents);
    } else {
        let front = events.drop_last();
        lemma_pushes_keep_most_recent(contents, front, capacity);
        assert((contents + front).push(events.last()) =~= contents + events);
        assert(most_recent(most_recent(contents + front, capacity).push(events.last()), capacity)
            =~= most_recent((contents + front).push(events.last()), capacity));
    }
}

/// Once more events were pushed than the buffer holds, it holds exactly the
/// last `capacity` of the pushed events, oldest first, whatever it held
/// before.
pub proof fn lemma_overflow_keeps_last_pushed<T>(contents: Seq<T>, events: Seq<T>, capacity: nat)
    requires
        contents.len() <= capacity,
        events.len() >= capacity,
    ensures
        after_pushes(contents, events, capacity) == events.subrange(
            events.len() - capacity,
            events.len() as int,
        ),
{
    lemma_pushes_keep_most_recent(contents, events, capacity);
    assert(most_recent(contents + events, capacity) =~= events.subrange(
        events.len() - capacity,
        events.len() as int,
    ));
}

/// A queue of events that never holds more than its capacity: a push onto a
/// full buffer evicts the oldest entry.
pub struct EventBuffer {
    events: VecDeque<Event>,
    capacity: usize,
}

impl View for EventBuffer {
    type V = Seq<Event>;

    /// The buffered events, oldest first.
    closed spec fn view(&self) -> Seq<Event> {
        self.events@
    }
}

impl EventBuffer {
    #[verifier::type_invariant]
    spec fn within_capacity(self) -> bool {
        self.events@.len() <= self.capacity
    }

    /// The largest number of events that the buffer retains.
    pub closed spec fn spec_capacity(&self) -> nat {
        self.capacity as nat
    }

    /// An empty buffer of the default capacity.
    pub fn new() -> (buffer: Self)
        ensures
            buffer@ == Seq::<Event>::empty(),
            buffer.spec_capacity() == DEFAULT_CAPACITY,
    {
        EventBuffer { events: VecDeque::new(), capacity: DEFAULT_CAPACITY }
    }

    /// An empty buffer that retains up to `capacity` events.
    pub fn with_capacity(capacity: usize) -> (buffer: Self)
        ensures
            buffer@ == Seq::<Event>::empty(),
            buffer.spec_capacity() == capacity,
    {
        EventBuffer { events: VecDeque::new(), capacity }
    }

    /// The largest number of events that the buffer retains.
    pub fn capacity(&self) -> (capacity: usize)
        ensures
            capacity == self.spec_capacity(),
            self@.len() <= capacity,
    {
        proof {
            use_type_invariant(self);
        }
        self.capacity
    }

    /// The number of buffered events.
    pub fn len(&self) -> (len: usize)
        ensures
            len == self@.len(),
            len <= self.spec_capacity(),
    {
        proof {
            use_type_invariant(self);
        }
        self.events.len()
    }

    /// Whether the buffer holds no event.
    pub fn is_empty(&self) -> (empty: bool)
        ensures
            empty == (self@.len() == 0),
    {
        self.events.len() == 0
    }

    /// The event at position `index`, counted from the oldest; `None` past
    /// the end.
    pub fn get(&self, index: usize) -> (event: Option<&Event>)
        ensures
            index < self@.len() ==> event == Some(&self@[index as int]),
            index >= self@.len() ==> event.is_none(),
    {
        if index < self.events.len() {
            Some(&self.events[index])
        } else {
            None
        }
    }

    /// Appends `event` as the newest entry and evicts the oldest one if the
    /// buffer would otherwise exceed its capacity.
    pub fn push(&mut self, event: Event)
        ensures
            final(self)@ == after_push(old(self)@, event, old(self).spec_capacity()),
            final(self).spec_capacity() == old(self).spec_capacity(),
            final(self)@.len() <= final(self).spec_capacity(),
    {
        proof {
            use_type_invariant(&*self);
        }
        let ghost before = self.events@;
        // The queue is taken out while it is one over capacity, so that the
        // buffer itself never holds more than it may.
        let mut events: VecDeque<Event> = VecDeque::new();
        std::mem::swap(&mut self.events, &mut events);
        events.push_back(event);
        if events.len() > self.capacity {
            let _ = events.pop_front();
        }
        assert(events@ =~= after_push(before, event, self.capacity as nat));
        self.events = events;
    }

    /// Pushes `events` one by one, first to last.
    pub fn push_all(&mut self, events: Vec<Event>)
        ensures
            final(self)@ == most_recent(old(self)@ + events@, old(self).spec_capacity()),
            final(self)@ == after_pushes(old(self)@, events@, old(self).spec_capacity()),
            final(self).spec_capacity() == old(self).spec_capacity(),
            final(self)@.len() <= final(self).spec_capacity(),
    {
        proof {
            use_type_invariant(&*self);
        }
        let ghost before = self@;
        let ghost capacity = self.spec_capacity();
        let ghost all = events@;
        for event in it: events
            invariant
                it.seq() == all,
                self.spec_capacity() == capacity,
                self@ == after_pushes(before, all.take(it.index() as int), capacity),
        {
            let ghost done = it.index();
            self.push(event);
            assert(all.take(done + 1).drop_last() =~= all.take(done as int));
        }
        proof {
            assert(all.take(all.len() as int) =~= all);
            lemma_pushes_keep_most_recent(before, all, capacity);
        }
    }
}

} // verus!

use vstd::prelude::*;

verus! {

/// Collects sent events in the order they were sent, standing in for an
/// event channel where nothing reads the events but a test.
#[derive(Debug, Clone, PartialEq)]
pub struct TestEventWriter<E> {
    pub events: Vec<E>,
}

impl<E> Default for TestEventWriter<E> {
    fn default() -> (r: Self)
        ensures
            r.events@ == Seq::<E>::empty(),
    {
        TestEventWriter { events: Vec::new() }
    }
}

impl<E> TestEventWriter<E> {
    /// Records `event` after those sent before.
    pub fn send(&mut self, event: E)
        ensures
            final(self).events@ == old(self).events@.push(event),
    {
        self.events.push(event);
    }

    /// Records `events` in order after those sent before.
    pub fn send_batch(&mut self, events: Vec<E>)
        ensures
            final(self).events@ == old(self).events@ + events@,
    {
        let mut events = events;
        self.events.append(&mut events);
    }

    /// Records the default value of the event type after those sent before.
    pub fn send_default(&mut self) where E: Default
        ensures
            final(self).events@.len() == old(self).events@.len() + 1,
            final(self).events@.drop_last() == old(self).events@,
    {
        self.events.push(E::default());
    }
}

} // verus!

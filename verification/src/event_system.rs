//! Observers, and the event system that notifies them.
use crate::events::PaopuEvent;
use vstd::prelude::*;

verus! {

pub trait Observer: Sized {
    /// The observer after it was notified of `event`.
    spec fn notified(self, event: PaopuEvent) -> Self;

    fn on_notify(&mut self, event: &PaopuEvent)
        ensures
            *final(self) == old(self).notified(*event),
    ;
}

/// The observers of an application, in the order in which they were added.
pub struct EventSystem<O: Observer> {
    observers: Vec<O>,
    pub events: Vec<PaopuEvent>,
}

impl<O: Observer> EventSystem<O> {
    /// The observers, in the order in which they were added.
    pub closed spec fn observers(&self) -> Seq<O> {
        self.observers@
    }

    /// The events that are kept for later.
    pub closed spec fn events(&self) -> Seq<PaopuEvent> {
        self.events@
    }

    pub fn new() -> (system: EventSystem<O>)
        ensures
            system.observers() == Seq::<O>::empty(),
            system.events() == Seq::<PaopuEvent>::empty(),
    {
        EventSystem { observers: Vec::new(), events: Vec::new() }
    }

    /// Notifies every observer of `event`, once, in the order in which the
    /// observers were added.
    pub fn notify(&mut self, event: PaopuEvent)
        ensures
            final(self).observers() == old(self).observers().map_values(
                |observer: O| observer.notified(event),
            ),
            final(self).events() == old(self).events(),
    {
        let count: usize = self.observers.len();
        let mut i: usize = 0;
        while i < count
            invariant
                i <= count,
                count == self.observers@.len(),
                count == old(self).observers@.len(),
                self.events == old(self).events,
                forall|j: int|
                    0 <= j < i ==> self.observers@[j] == old(self).observers@[j].notified(event),
                forall|j: int| i <= j < count ==> self.observers@[j] == old(self).observers@[j],
            decreases count - i,
        {
            self.observers[i].on_notify(&event);
            i += 1;
        }
        assert(self.observers@ =~= old(self).observers@.map_values(
            |observer: O| observer.notified(event),
        ));
    }

    pub fn add_observer(&mut self, observer: O)
        ensures
            final(self).observers() == old(self).observers().push(observer),
            final(self).events() == old(self).events(),
    {
        self.observers.push(observer);
    }

    /// The number of observers.
    pub fn observer_count(&self) -> (count: usize)
        ensures
            count == self.observers().len(),
    {
        self.observers.len()
    }

    /// The observer that was added as number `index`, counting from zero.
    pub fn observer(&self, index: usize) -> (observer: &O)
        requires
            index < self.observers().len(),
        ensures
            *observer == self.observers()[index as int],
    {
        &self.observers[index]
    }
}

} // verus!

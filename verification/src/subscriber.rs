//! Event subscription: anything that wants to hear the name of each event.

use vstd::prelude::*;

verus! {

/// A subscriber to named events.
pub trait Subscribe {
    /// Called once per event, with the event's name.
    fn on_event(&mut self, name: String);
}

/// A subscriber that keeps the names of the events it heard, in order.
pub struct EventLog {
    events: Vec<String>,
}

impl EventLog {
    /// The names heard so far, oldest first.
    pub closed spec fn spec_events(&self) -> Seq<String> {
        self.events@
    }

    /// A log that has heard nothing yet.
    pub fn new() -> (log: EventLog)
        ensures
            log.spec_events() == Seq::<String>::empty(),
    {
        EventLog { events: Vec::new() }
    }

    /// The names heard so far, oldest first.
    pub fn events(&self) -> (r: &Vec<String>)
        ensures
            r@ == self.spec_events(),
    {
        &self.events
    }
}

impl Subscribe for EventLog {
    fn on_event(&mut self, name: String)
        ensures
            final(self).spec_events() == old(self).spec_events().push(name),
    {
        self.events.push(name);
    }
}

} // verus!

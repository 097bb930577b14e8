//! The form in which a session event travels to the user interface.

use vstd::prelude::*;
use crate::api::TauriEvent;
use crate::openocd::events;

verus! {

/// Which of the two session events a message carries.
#[derive(Clone, Copy, Debug, PartialEq, Eq, Structural)]
pub enum Kind {
    Start,
    Stop,
}

impl Kind {
    /// The number that stands for this kind on the wire.
    pub open spec fn number(self) -> u8 {
        match self {
            Kind::Start => 0,
            Kind::Stop => 1,
        }
    }

    /// The number that stands for this kind on the wire.
    pub fn code(&self) -> (n: u8)
        ensures
            n == self.number(),
    {
        match self {
            Kind::Start => 0,
            Kind::Stop => 1,
        }
    }
}

/// The message that carries a session event.
#[derive(Clone, Copy, Debug, PartialEq, Eq, Structural)]
pub struct Event {
    pub event: Kind,
}

impl Event {
    /// The message for a session event. It carries the same number.
    pub fn of(event: events::Event) -> (r: Event)
        ensures
            r.event.number() == event.number(),
    {
        match event {
            events::Event::Start => Event { event: Kind::Start },
            events::Event::Stop => Event { event: Kind::Stop },
        }
    }
}

impl TauriEvent for Event {
    open spec fn topic_text(&self) -> Seq<char> {
        "openocd.event"@
    }

    fn topic(&self) -> (t: &'static str) {
        "openocd.event"
    }
}

} // verus!

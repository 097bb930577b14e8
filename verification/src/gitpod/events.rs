//! The two events in the life of the Gitpod companion.

use vstd::prelude::*;
use crate::api::TauriEvent;

verus! {

/// The companion has started or has stopped.
#[derive(Clone, Copy, Debug, PartialEq, Eq, Structural)]
pub enum Event {
    Start,
    Stop,
}

impl Event {
    /// The number that stands for this event on the wire.
    pub open spec fn number(self) -> u8 {
        match self {
            Event::Start => 0,
            Event::Stop => 1,
        }
    }

    /// The number that stands for this event on the wire.
    pub fn code(&self) -> (n: u8)
        ensures
            n == self.number(),
    {
        match self {
            Event::Start => 0,
            Event::Stop => 1,
        }
    }
}

impl TauriEvent for Event {
    open spec fn topic_text(&self) -> Seq<char> {
        "app://gitpod/event"@
    }

    fn topic(&self) -> (t: &'static str) {
        "app://gitpod/event"
    }
}

} // verus!

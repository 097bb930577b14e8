//! The two events in the life of a debugger session, and the topics under
//! which they and the debugger's output reach the user interface.

use vstd::prelude::*;
use crate::api::TauriEvent;

verus! {

/// A debugger session has started or has stopped.
#[derive(Clone, Copy, Debug, PartialEq, Eq, Structural)]
pub enum Event {
    Start,
    Stop,
}

impl Event {
    /// The number that stands for this event on the wire.
    pub open spec fn number(self) -> u8 {
        match self {
            Event::Start => 0,
            Event::Stop => 1,
        }
    }

    /// The number that stands for this event on the wire.
    pub fn code(&self) -> (n: u8)
        ensures
            n == self.number(),
    {
        match self {
            Event::Start => 0,
            Event::Stop => 1,
        }
    }
}

/// A line of the debugger's output is sent as it is.
impl TauriEvent for String {
    open spec fn topic_text(&self) -> Seq<char> {
        "openocd.output"@
    }

    fn topic(&self) -> (t: &'static str) {
        "openocd.output"
    }
}

impl TauriEvent for Event {
    open spec fn topic_text(&self) -> Seq<char> {
        "openocd.event"@
    }

    fn topic(&self) -> (t: &'static str) {
        "openocd.event"
    }
}

} // verus!

//! What every message to the user interface has in common.

use vstd::prelude::*;

verus! {

/// A message that is sent to the user interface, which listens on Tauri's
/// event bus, under a topic. The topic depends on the kind of message
/// alone.
pub trait TauriEvent {
    /// The topic of this message.
    spec fn topic_text(&self) -> Seq<char>;

    /// The topic of this message.
    fn topic(&self) -> (t: &'static str)
        ensures
            t@ == self.topic_text(),
    ;
}

} // verus!

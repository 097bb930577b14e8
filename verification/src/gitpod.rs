//! The Gitpod companion, as far as the library decides on it: what the
//! user interface is told when the companion is started.

use vstd::prelude::*;
use crate::gitpod::events::Event;
use crate::notification::{Level, Notification};

pub mod config;
pub mod events;

verus! {

/// A message for the user interface about the companion.
#[derive(Debug)]
pub enum Emit {
    Notify(Notification),
    Event(Event),
}

/// An `Emit` with its text as a sequence of characters.
pub enum EmitView {
    Notify { level: Level, message: Seq<char> },
    Event(Event),
}

impl View for Emit {
    type V = EmitView;

    open spec fn view(&self) -> EmitView {
        match *self {
            Emit::Notify(notice) => EmitView::Notify {
                level: notice.level,
                message: notice.message@,
            },
            Emit::Event(event) => EmitView::Event(event),
        }
    }
}

/// The messages of a list, each by its view.
pub open spec fn emit_views(list: Seq<Emit>) -> Seq<EmitView> {
    list.map_values(|e: Emit| e@)
}

/// What is sent when the companion is started: where one runs already,
/// the user is told of the restart and that companion's stop is made known
/// first; the start is made known in either case.
pub open spec fn start_messages(running: bool) -> Seq<EmitView> {
    if running {
        seq![
            EmitView::Notify { level: Level::Info, message: "Restart Gitpod companion..."@ },
            EmitView::Event(Event::Stop),
            EmitView::Event(Event::Start),
        ]
    } else {
        seq![EmitView::Event(Event::Start)]
    }
}

/// The messages to send when the companion is started, given whether one
/// runs already.
pub fn start_gitpod(running: bool) -> (r: Vec<Emit>)
    ensures
        emit_views(r@) == start_messages(running),
{
    let mut out: Vec<Emit> = Vec::new();
    if running {
        out.push(Emit::Notify(Notification::info("Restart Gitpod companion...".to_owned())));
        out.push(Emit::Event(Event::Stop));
    }
    out.push(Emit::Event(Event::Start));
    assert(emit_views(out@) =~= start_messages(running));
    out
}

} // verus!

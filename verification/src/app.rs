//! The supervisor of the one debugger session.
//!
//! At most one session exists at a time. The supervisor is a slot that is
//! free, taken by a session that is being started, or taken by a running
//! session. It neither starts nor ends a process itself: the caller does
//! that, tells the supervisor what happened, and sends on what the
//! supervisor hands back for the user interface.

use vstd::prelude::*;
use crate::error::{Error, ErrorMsg};
use crate::listing::Entry;
use crate::notification::{Level, Notification};
use crate::openocd::config::{config_views, Config, ConfigsSet};
use crate::openocd::events::Event;
use crate::openocd::output::Output;
use crate::openocd::paths::OpenocdPaths;
use crate::openocd::proc::{
    arguments,
    kill_proc,
    process_views,
    start,
    target_of,
    texts,
    KillTarget,
    ProcessInfo,
};

verus! {

/// The state of the slot.
#[derive(Clone, Copy, Debug, PartialEq, Eq, Structural)]
pub enum Slot {
    /// No session: a start is accepted.
    Idle,
    /// A session was accepted and its process is being started.
    Starting,
    /// The session's process runs under the id `pid`.
    Running { pid: u32 },
}

impl Slot {
    /// Whether the slot is taken.
    pub open spec fn is_busy(self) -> bool {
        !(self is Idle)
    }
}

/// A message for the user interface.
#[derive(Debug)]
pub enum Emit {
    Notify(Notification),
    Event(Event),
    Output(Output),
}

/// An `Emit` with its texts as sequences of characters.
pub enum EmitView {
    Notify { level: Level, message: Seq<char> },
    Event(Event),
    Output(Seq<char>),
}

impl View for Emit {
    type V = EmitView;

    open spec fn view(&self) -> EmitView {
        match *self {
            Emit::Notify(notice) => EmitView::Notify {
                level: notice.level,
                message: notice.message@,
            },
            Emit::Event(event) => EmitView::Event(event),
            Emit::Output(output) => EmitView::Output(output.line@),
        }
    }
}

/// The messages of a list, each by its view.
pub open spec fn emit_views(list: Seq<Emit>) -> Seq<EmitView> {
    list.map_values(|e: Emit| e@)
}

/// The two messages that make a session event known: a notice for the user
/// with the text `msg`, or with the event's own text where there is none,
/// and after it the event itself.
pub open spec fn announcement(event: Event, msg: Option<Seq<char>>) -> Seq<EmitView> {
    match event {
        Event::Start => seq![
            EmitView::Notify {
                level: Level::Info,
                message: match msg {
                    Some(text) => text,
                    None => "OpenOCD started!"@,
                },
            },
            EmitView::Event(Event::Start),
        ],
        Event::Stop => seq![
            EmitView::Notify {
                level: Level::Warn,
                message: match msg {
                    Some(text) => text,
                    None => "OpenOCD stopped!"@,
                },
            },
            EmitView::Event(Event::Stop),
        ],
    }
}

/// The message for each line of `lines`, in their order: the line and a
/// line break.
pub open spec fn forwarded(lines: Seq<Seq<char>>) -> Seq<EmitView> {
    Seq::new(lines.len(), |i: int| EmitView::Output(lines[i] + seq!['\n']))
}

/// Why a start is refused in the state `slot`, if it is: a taken slot
/// refuses it, and so does a free one where there is no debugger to start.
pub open spec fn start_refusal(slot: Slot, available: bool) -> Option<Error> {
    if slot.is_busy() {
        Some(Error::AlreadyRunning)
    } else if !available {
        Some(Error::ToolNotFound)
    } else {
        None
    }
}

/// The slot after a request to start.
pub open spec fn after_start(slot: Slot, available: bool) -> Slot {
    if start_refusal(slot, available) is None {
        Slot::Starting
    } else {
        slot
    }
}

/// The slot after the session's process was started under the id `pid`.
pub open spec fn after_spawned(slot: Slot, pid: u32) -> Slot {
    if slot is Starting {
        Slot::Running { pid }
    } else {
        slot
    }
}

/// The slot after the session's process could not be started.
pub open spec fn after_spawn_failed(slot: Slot) -> Slot {
    if slot is Starting {
        Slot::Idle
    } else {
        slot
    }
}

/// The slot after the output of the session's process has ended.
pub open spec fn after_stream_closed(slot: Slot) -> Slot {
    if slot is Running {
        Slot::Idle
    } else {
        slot
    }
}

/// What is sent when the session's process was started: the start is made
/// known, if a session was being started.
pub open spec fn spawned_messages(slot: Slot) -> Seq<EmitView> {
    if slot is Starting {
        announcement(Event::Start, None)
    } else {
        Seq::empty()
    }
}

/// What is sent when the session's process could not be started: the
/// user is told so and the stop is made known, if a session was being
/// started.
pub open spec fn spawn_failed_messages(slot: Slot) -> Seq<EmitView> {
    if slot is Starting {
        announcement(Event::Stop, Some(Error::SpawnFailed.text()))
    } else {
        Seq::empty()
    }
}

/// What is sent for lines that the session's process printed: each line,
/// if a session runs.
pub open spec fn line_messages(slot: Slot, lines: Seq<Seq<char>>) -> Seq<EmitView> {
    if slot is Running {
        forwarded(lines)
    } else {
        Seq::empty()
    }
}

/// What is sent when the output of the session's process has ended: the
/// stop is made known, if a session ran.
pub open spec fn closed_messages(slot: Slot) -> Seq<EmitView> {
    if slot is Running {
        announcement(Event::Stop, None)
    } else {
        Seq::empty()
    }
}

/// What a request was answered with when it was carried out.
#[derive(Clone, Copy, Debug, PartialEq, Eq, Structural)]
pub enum Ack {
    Started,
    Stopped,
}

impl Ack {
    /// The text shown to the user for this answer.
    pub open spec fn text(self) -> Seq<char> {
        match self {
            Ack::Started => "OpenOCD started!"@,
            Ack::Stopped => "OpenOCD stopped"@,
        }
    }

    /// The text shown to the user for this answer.
    pub fn message(&self) -> (m: &'static str)
        ensures
            m@ == self.text(),
    {
        match self {
            Ack::Started => "OpenOCD started!",
            Ack::Stopped => "OpenOCD stopped",
        }
    }
}

/// The supervisor: the slot and nothing else.
#[derive(Debug)]
pub struct App {
    pub slot: Slot,
}

impl App {
    /// A supervisor with a free slot.
    pub fn new() -> (r: App)
        ensures
            r.slot == Slot::Idle,
    {
        App { slot: Slot::Idle }
    }

    /// Asks for a session with the scripts `configs`. A taken slot refuses
    /// with `AlreadyRunning` and a free one without a debugger to start
    /// (`available` is false) with `ToolNotFound`; either way nothing
    /// changes. Else the slot is taken and the arguments to start the
    /// debugger with come back: `-f` and the path, for each script in the
    /// order given.
    pub fn start(&mut self, available: bool, configs: &Vec<Config>) -> (r: Result<
        Vec<String>,
        Error,
    >)
        ensures
            final(self).slot == after_start(old(self).slot, available),
            match start_refusal(old(self).slot, available) {
                Some(error) => r == Err::<Vec<String>, Error>(error),
                None => r is Ok && texts(r->Ok_0@) == arguments(config_views(configs@)),
            },
    {
        match self.slot {
            Slot::Idle => match start(available, configs) {
                Some(args) => {
                    self.slot = Slot::Starting;
                    Ok(args)
                },
                None => Err(Error::ToolNotFound),
            },
            _ => Err(Error::AlreadyRunning),
        }
    }

    /// Takes note that the session's process was started under the id
    /// `pid`, and makes the start known. Where no session is being
    /// started, nothing changes and nothing is to be sent.
    pub fn spawned(&mut self, pid: u32) -> (r: Vec<Emit>)
        ensures
            final(self).slot == after_spawned(old(self).slot, pid),
            emit_views(r@) == spawned_messages(old(self).slot),
    {
        match self.slot {
            Slot::Starting => {
                self.slot = Slot::Running { pid };
                Self::send_event(Event::Start, None)
            },
            _ => Self::nothing(),
        }
    }

    /// Takes note that the session's process could not be started: the
    /// slot is free again, and the user is told. Where no session is being
    /// started, nothing changes and nothing is to be sent.
    pub fn spawn_failed(&mut self) -> (r: Vec<Emit>)
        ensures
            final(self).slot == after_spawn_failed(old(self).slot),
            emit_views(r@) == spawn_failed_messages(old(self).slot),
    {
        match self.slot {
            Slot::Starting => {
                self.slot = Slot::Idle;
                Self::send_event(Event::Stop, Some(Error::SpawnFailed.message()))
            },
            _ => Self::nothing(),
        }
    }

    /// The messages for lines that the running session printed: one for
    /// each line, in the order of the lines, holding the line as it is and
    /// a line break. Where no session runs there is nothing to send.
    pub fn lines(&self, lines: &Vec<String>) -> (r: Vec<Emit>)
        ensures
            emit_views(r@) == line_messages(self.slot, texts(lines@)),
    {
        let mut out: Vec<Emit> = Vec::new();
        if let Slot::Running { .. } = self.slot {
            let mut i: usize = 0;
            while i < lines.len()
                invariant
                    i <= lines.len(),
                    out.len() == i,
                    forall|k: int|
                        0 <= k < i ==> (#[trigger] out@[k])@ == EmitView::Output(
                            lines@[k]@ + seq!['\n'],
                        ),
                decreases lines.len() - i,
            {
                out.push(Emit::Output(Output::of(lines[i].as_str())));
                i += 1;
            }
            assert(emit_views(out@) =~= forwarded(texts(lines@)));
        } else {
            assert(emit_views(out@) =~= Seq::<EmitView>::empty());
        }
        out
    }

    /// The message for one line that the running session printed.
    pub fn line(&self, line: &str) -> (r: Vec<Emit>)
        ensures
            emit_views(r@) == line_messages(self.slot, seq![line@]),
    {
        let mut out: Vec<Emit> = Vec::new();
        if let Slot::Running { .. } = self.slot {
            out.push(Emit::Output(Output::of(line)));
            assert(emit_views(out@) =~= forwarded(seq![line@]));
        } else {
            assert(emit_views(out@) =~= Seq::<EmitView>::empty());
        }
        out
    }

    /// Takes note that the output of the session's process has ended,
    /// because the process ended by itself or was ended: the slot is free
    /// again and the stop is made known. Where no session runs, nothing
    /// changes and nothing is to be sent.
    pub fn stream_closed(&mut self) -> (r: Vec<Emit>)
        ensures
            final(self).slot == after_stream_closed(old(self).slot),
            emit_views(r@) == closed_messages(old(self).slot),
    {
        match self.slot {
            Slot::Running { .. } => {
                self.slot = Slot::Idle;
                Self::send_event(Event::Stop, None)
            },
            _ => Self::nothing(),
        }
    }

    /// What to end in order to end the running session, given the
    /// processes of the machine: the debugger that the session's process
    /// started, if there is one, else that process itself. Without a
    /// running session the answer is `NotRunning`. The slot stays as it is:
    /// it is freed when the output of the ended process ends.
    pub fn kill(&self, processes: &Vec<ProcessInfo>) -> (r: Result<KillTarget, Error>)
        ensures
            r == match self.slot {
                Slot::Running { pid } => Ok::<KillTarget, Error>(
                    target_of(pid, process_views(processes@)),
                ),
                _ => Err::<KillTarget, Error>(Error::NotRunning),
            },
    {
        match self.slot {
            Slot::Running { pid } => Ok(kill_proc(pid, processes)),
            _ => Err(Error::NotRunning),
        }
    }

    /// The message that makes known that the session was ended on
    /// request.
    pub fn killed() -> (r: Vec<Emit>)
        ensures
            emit_views(r@) == seq![EmitView::Event(Event::Stop)],
    {
        let mut out: Vec<Emit> = Vec::new();
        out.push(Emit::Event(Event::Stop));
        assert(emit_views(out@) =~= seq![EmitView::Event(Event::Stop)]);
        out
    }

    /// The scripts of the three categories, or the report that no
    /// installation was found.
    pub fn get_config_lists(
        &self,
        paths: Result<OpenocdPaths, Error>,
        boards: &Option<Vec<Entry>>,
        interfaces: &Option<Vec<Entry>>,
        targets: &Option<Vec<Entry>>,
    ) -> (r: Result<ConfigsSet, ErrorMsg>)
        ensures
            match paths {
                Ok(found) => r is Ok && r->Ok_0.lists(found, *boards, *interfaces, *targets),
                Err(error) => r is Err && r->Err_0.message@ == error.text(),
            },
    {
        match ConfigsSet::new(paths, boards, interfaces, targets) {
            Ok(set) => Ok(set),
            Err(error) => Err(ErrorMsg::of(error)),
        }
    }

    /// The messages that make the session event `event` known: a notice
    /// for the user, informing of a start and warning of a stop, with the
    /// text `msg` or the event's own, and after it the event itself.
    pub fn send_event(event: Event, msg: Option<&str>) -> (r: Vec<Emit>)
        ensures
            emit_views(r@) == announcement(
                event,
                match msg {
                    Some(text) => Some(text@),
                    None => None,
                },
            ),
    {
        let notice = match event {
            Event::Start => {
                let text = match msg {
                    Some(text) => text,
                    None => "OpenOCD started!",
                };
                Notification::info(text.to_owned())
            },
            Event::Stop => {
                let text = match msg {
                    Some(text) => text,
                    None => "OpenOCD stopped!",
                };
                Notification::warn(text.to_owned())
            },
        };
        let mut out: Vec<Emit> = Vec::new();
        out.push(Emit::Notify(notice));
        out.push(Emit::Event(event));
        assert(emit_views(out@) =~= announcement(
            event,
            match msg {
                Some(text) => Some(text@),
                None => None,
            },
        ));
        out
    }

    /// No message at all.
    fn nothing() -> (r: Vec<Emit>)
        ensures
            emit_views(r@) == Seq::<EmitView>::empty(),
    {
        let out: Vec<Emit> = Vec::new();
        assert(emit_views(out@) =~= Seq::<EmitView>::empty());
        out
    }
}

/// While the slot is taken, a request to start is refused with
/// `AlreadyRunning` and leaves the slot, and with it the session that holds
/// it, as it is. So of two requests in a row the second is refused.
pub proof fn lemma_second_start_is_refused(slot: Slot, first: bool, second: bool)
    ensures
        slot.is_busy() ==> start_refusal(slot, second) == Some(Error::AlreadyRunning)
            && after_start(slot, second) == slot,
        start_refusal(slot, first) is None ==> start_refusal(after_start(slot, first), second)
            == Some(Error::AlreadyRunning) && after_start(after_start(slot, first), second)
            == after_start(slot, first),
{
}

/// When the output of a running session ends, the slot is free, and a
/// request to start is accepted again.
pub proof fn lemma_slot_is_free_after_exit(pid: u32)
    ensures
        after_stream_closed(Slot::Running { pid }) == Slot::Idle,
        start_refusal(after_stream_closed(Slot::Running { pid }), true) is None,
        after_start(after_stream_closed(Slot::Running { pid }), true) == Slot::Starting,
{
}

/// What a session sends from the start of its process to the end of its
/// output, with the lines `lines` printed in between: the start is made
/// known before the first line and the stop after the last, and the slot is
/// free at the end.
pub proof fn lemma_session_in_order(pid: u32, lines: Seq<Seq<char>>)
    ensures
        ({
            let running = after_spawned(Slot::Starting, pid);
            let sent = spawned_messages(Slot::Starting) + line_messages(running, lines)
                + closed_messages(running);
            &&& after_stream_closed(running) == Slot::Idle
            &&& sent.len() == lines.len() + 4
            &&& sent[0] == (EmitView::Notify { level: Level::Info, message: "OpenOCD started!"@ })
            &&& sent[1] == EmitView::Event(Event::Start)
            &&& forall|i: int|
                0 <= i < lines.len() ==> #[trigger] sent[2 + i] == EmitView::Output(
                    lines[i] + seq!['\n'],
                )
            &&& sent[lines.len() as int + 2] == (EmitView::Notify {
                level: Level::Warn,
                message: "OpenOCD stopped!"@,
            })
            &&& sent[lines.len() as int + 3] == EmitView::Event(Event::Stop)
        }),
{
}

/// Outside a running session no line is sent on: not before its process
/// was started and not after its output has ended.
pub proof fn lemma_no_output_outside_a_session(lines: Seq<Seq<char>>)
    ensures
        line_messages(Slot::Idle, lines).len() == 0,
        line_messages(Slot::Starting, lines).len() == 0,
{
}

/// A session that could not be started leaves the slot free.
pub proof fn lemma_slot_is_free_after_failed_spawn(available: bool)
    ensures
        after_spawn_failed(after_start(Slot::Idle, available)) == Slot::Idle,
{
}

/// The lines of a session reach the user interface one for one, in their
/// order, each with its text unchanged but for the line break at its end.
pub proof fn lemma_lines_keep_order_and_text(lines: Seq<Seq<char>>)
    ensures
        forwarded(lines).len() == lines.len(),
        forall|i: int|
            0 <= i < lines.len() ==> #[trigger] forwarded(lines)[i] == EmitView::Output(
                lines[i] + seq!['\n'],
            ),
        forall|i: int|
            0 <= i < lines.len() ==> (#[trigger] forwarded(lines)[i])->Output_0.drop_last()
                == lines[i],
{
    assert forall|i: int| 0 <= i < lines.len() implies (#[trigger] forwarded(
        lines,
    )[i])->Output_0.drop_last() == lines[i] by {
        assert((lines[i] + seq!['\n']).drop_last() =~= lines[i]);
    }
}

} // verus!

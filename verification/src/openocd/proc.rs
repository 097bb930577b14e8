//! How the debugger is started and how it is ended.
//!
//! The debugger is started as `openocd -f <path> -f <path> ...`, with one
//! `-f` for each configuration script, in the order given. It may have been
//! started through a launcher that starts the real debugger as a child of
//! its own and does not take it along when it is ended. So to end a session
//! the processes of the machine are searched for that child first.

use vstd::prelude::*;
use crate::error::Error;
use crate::openocd::config::{config_views, Config, ConfigView};
use crate::text::contains_text;

verus! {

/// The texts of a list of strings.
pub open spec fn texts(list: Seq<String>) -> Seq<Seq<char>> {
    list.map_values(|s: String| s@)
}

/// The arguments that start the debugger with the scripts `configs`: for
/// each script, `-f` and the script's path.
pub open spec fn arguments(configs: Seq<ConfigView>) -> Seq<Seq<char>> {
    Seq::new(
        2 * configs.len(),
        |i: int|
            if i % 2 == 0 {
                "-f"@
            } else {
                configs[i / 2].path
            },
    )
}

/// The name under which the debugger is started and by which its
/// processes are known.
pub fn program() -> (r: &'static str)
    ensures
        r@ == "openocd"@,
{
    "openocd"
}

/// The arguments that start the debugger with the scripts `config`.
pub fn arguments_for(config: &Vec<Config>) -> (r: Vec<String>)
    ensures
        texts(r@) == arguments(config_views(config@)),
{
    let mut args: Vec<String> = Vec::new();
    let mut i: usize = 0;
    while i < config.len()
        invariant
            i <= config.len(),
            args.len() == 2 * i,
            forall|k: int|
                0 <= k < args.len() ==> (#[trigger] args@[k])@ == arguments(
                    config_views(config@),
                )[k],
        decreases config.len() - i,
    {
        let ghost before = args@;
        args.push("-f".to_owned());
        args.push(config[i].path.clone());
        assert forall|k: int| 0 <= k < args.len() implies (#[trigger] args@[k])@ == arguments(
            config_views(config@),
        )[k] by {
            if k < 2 * i {
                assert(args@[k] == before[k]);
            } else if k == 2 * i {
            } else {
                assert(k / 2 == i as int);
                assert(config_views(config@)[i as int] == config@[i as int]@);
            }
        }
        i += 1;
    }
    assert(texts(args@) =~= arguments(config_views(config@)));
    args
}

/// The arguments to start the debugger with, or `None` where the caller
/// has found no debugger to start (`available` is false).
pub fn start(available: bool, config: &Vec<Config>) -> (r: Option<Vec<String>>)
    ensures
        match r {
            Some(args) => available && texts(args@) == arguments(config_views(config@)),
            None => !available,
        },
{
    if available {
        Some(arguments_for(config))
    } else {
        None
    }
}

/// What is known of one process of the machine.
#[derive(Debug)]
pub struct ProcessInfo {
    pub pid: u32,
    /// The process that started this one, where the system tells.
    pub parent: Option<u32>,
    /// The name of the program that the process runs.
    pub name: String,
}

/// A `ProcessInfo` with its name as a sequence of characters.
pub struct ProcessView {
    pub pid: u32,
    pub parent: Option<u32>,
    pub name: Seq<char>,
}

impl View for ProcessInfo {
    type V = ProcessView;

    open spec fn view(&self) -> ProcessView {
        ProcessView { pid: self.pid, parent: self.parent, name: self.name@ }
    }
}

/// The processes of a list, each by its view.
pub open spec fn process_views(list: Seq<ProcessInfo>) -> Seq<ProcessView> {
    list.map_values(|p: ProcessInfo| p@)
}

/// What to end in order to end a session.
#[derive(Clone, Copy, Debug, PartialEq, Eq, Structural)]
pub enum KillTarget {
    /// The process with this id: the debugger that the launcher started.
    Child(u32),
    /// The process that the session itself started.
    Handle,
}

/// Whether `p` is the debugger started by the process `pid`: its name
/// holds `openocd` and its parent is `pid`.
pub open spec fn is_daemon_of(p: ProcessView, pid: u32) -> bool {
    crate::text::has_substring(p.name, "openocd"@) && p.parent == Some(pid)
}

/// The index of the first process at or after `from` that is the debugger
/// started by `pid`.
pub open spec fn first_daemon(processes: Seq<ProcessView>, pid: u32, from: int) -> Option<int>
    decreases processes.len() - from,
{
    if from < 0 || from >= processes.len() {
        None
    } else if is_daemon_of(processes[from], pid) {
        Some(from)
    } else {
        first_daemon(processes, pid, from + 1)
    }
}

/// What to end in order to end the session whose process is `pid`: the
/// first process of the list that is the debugger started by `pid`, or the
/// session's own process where there is none.
pub open spec fn target_of(pid: u32, processes: Seq<ProcessView>) -> KillTarget {
    match first_daemon(processes, pid, 0) {
        Some(i) => KillTarget::Child(processes[i].pid),
        None => KillTarget::Handle,
    }
}

/// What `first_daemon` finds is a debugger started by `pid` and the first
/// one; where it finds none, there is none.
pub proof fn lemma_first_daemon(processes: Seq<ProcessView>, pid: u32, from: int)
    requires
        0 <= from,
    ensures
        match first_daemon(processes, pid, from) {
            Some(i) => {
                &&& from <= i < processes.len()
                &&& is_daemon_of(processes[i], pid)
                &&& forall|j: int| from <= j < i ==> !is_daemon_of(processes[j], pid)
            },
            None => forall|j: int| from <= j < processes.len() ==> !is_daemon_of(processes[j], pid),
        },
    decreases processes.len() - from,
{
    if from < processes.len() && !is_daemon_of(processes[from], pid) {
        lemma_first_daemon(processes, pid, from + 1);
    }
}

/// What to end in order to end the session whose process is `pid`, given
/// the processes of the machine.
pub fn kill_proc(pid: u32, processes: &Vec<ProcessInfo>) -> (r: KillTarget)
    ensures
        r == target_of(pid, process_views(processes@)),
{
    let ghost all = process_views(processes@);
    let mut i: usize = 0;
    while i < processes.len()
        invariant
            i <= processes.len(),
            all == process_views(processes@),
            first_daemon(all, pid, 0) == first_daemon(all, pid, i as int),
        decreases processes.len() - i,
    {
        let process = &processes[i];
        assert(all[i as int] == process@);
        if contains_text(process.name.as_str(), program()) {
            if let Some(parent) = process.parent {
                if parent == pid {
                    return KillTarget::Child(process.pid);
                }
            }
        }
        i += 1;
    }
    KillTarget::Handle
}

/// How an attempt to end a session came out, where it did not fail for
/// good.
#[derive(Clone, Copy, Debug, PartialEq, Eq, Structural)]
pub enum KillOutcome {
    /// The process was ended.
    Stopped,
    /// The debugger's own process could not be ended; the process that the
    /// session started is to be ended instead.
    TryHandle,
}

/// What follows from an attempt to end `target`, which the system carried
/// out (`ended`) or not. An attempt that ended the process ends the
/// session. After a failed attempt on the debugger's own process, the
/// process that the session started is still to be tried. When that attempt
/// fails, nothing could be ended.
pub open spec fn outcome_of(target: KillTarget, ended: bool) -> Result<KillOutcome, Error> {
    if ended {
        Ok(KillOutcome::Stopped)
    } else {
        match target {
            KillTarget::Child(_) => Ok(KillOutcome::TryHandle),
            KillTarget::Handle => Err(Error::KillFailed),
        }
    }
}

/// What follows from an attempt to end `target`.
pub fn kill_outcome(target: KillTarget, ended: bool) -> (r: Result<KillOutcome, Error>)
    ensures
        r == outcome_of(target, ended),
{
    if ended {
        Ok(KillOutcome::Stopped)
    } else {
        match target {
            KillTarget::Child(_) => Ok(KillOutcome::TryHandle),
            KillTarget::Handle => Err(Error::KillFailed),
        }
    }
}

/// Ending a session fails only when every attempt has failed: one
/// successful attempt ends it, a failed attempt on the session's own
/// process is the only one that fails it, and that process is never tried
/// twice.
pub proof fn lemma_kill_fails_after_the_last_attempt(target: KillTarget, ended: bool)
    ensures
        ended ==> outcome_of(target, ended) == Ok::<KillOutcome, Error>(KillOutcome::Stopped),
        outcome_of(target, ended) is Err <==> !ended && target == KillTarget::Handle,
        outcome_of(target, ended) is Err ==> outcome_of(target, ended)->Err_0 == Error::KillFailed,
        outcome_of(KillTarget::Handle, ended) != Ok::<KillOutcome, Error>(KillOutcome::TryHandle),
{
}

} // verus!

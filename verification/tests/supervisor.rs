use justrunmydebugger::app::{Ack, App, Emit, Slot};
use justrunmydebugger::error::{Error, ErrorMsg};
use justrunmydebugger::listing::Entry;
use justrunmydebugger::notification::Level;
use justrunmydebugger::openocd::config::Config;
use justrunmydebugger::openocd::events::Event;
use justrunmydebugger::openocd::paths::OpenocdPaths;
use justrunmydebugger::openocd::proc::{
    arguments_for, kill_outcome, kill_proc, program, start, KillOutcome, KillTarget, ProcessInfo,
};

fn config(path: &str) -> Config {
    Config { name: "n".to_string(), path: path.to_string() }
}

fn shown(list: &[Emit]) -> Vec<String> {
    list.iter()
        .map(|e| match e {
            Emit::Notify(n) => format!("notify {} {}", n.level.code(), n.message),
            Emit::Event(e) => format!("event {}", e.code()),
            Emit::Output(o) => format!("output {:?}", o.line),
        })
        .collect()
}

fn process(pid: u32, parent: Option<u32>, name: &str) -> ProcessInfo {
    ProcessInfo { pid, parent, name: name.to_string() }
}

#[test]
fn arguments_are_one_flag_pair_for_each_script_in_order() {
    let configs = vec![config("/s/interface/stlink-v2.cfg"), config("/s/target/stm32f0x.cfg")];
    assert_eq!(
        arguments_for(&configs),
        vec!["-f", "/s/interface/stlink-v2.cfg", "-f", "/s/target/stm32f0x.cfg"]
    );
    assert!(arguments_for(&Vec::new()).is_empty());
    assert_eq!(start(true, &configs).map(|a| a.len()), Some(4));
    assert_eq!(start(false, &configs), None);
    assert_eq!(program(), "openocd");
}

#[test]
fn second_start_fails_with_already_running() {
    let mut app = App::new();
    assert_eq!(app.slot, Slot::Idle);
    let first = app.start(true, &vec![config("/a.cfg")]);
    assert_eq!(first, Ok(vec!["-f".to_string(), "/a.cfg".to_string()]));
    assert_eq!(app.slot, Slot::Starting);
    assert_eq!(app.start(true, &vec![config("/b.cfg")]), Err(Error::AlreadyRunning));
    assert_eq!(app.slot, Slot::Starting);
    app.spawned(41);
    assert_eq!(app.start(true, &vec![config("/b.cfg")]), Err(Error::AlreadyRunning));
    assert_eq!(app.slot, Slot::Running { pid: 41 });
    // a taken slot refuses before it looks for the debugger
    assert_eq!(app.start(false, &Vec::new()), Err(Error::AlreadyRunning));
}

#[test]
fn slot_is_free_again_after_the_stream_closes() {
    let mut app = App::new();
    app.start(true, &vec![config("/a.cfg")]).unwrap();
    app.spawned(7);
    let sent = app.stream_closed();
    assert_eq!(shown(&sent), vec!["notify 1 OpenOCD stopped!", "event 1"]);
    assert_eq!(app.slot, Slot::Idle);
    assert!(app.start(true, &vec![config("/a.cfg")]).is_ok());
    assert_eq!(app.slot, Slot::Starting);
}

#[test]
fn start_without_a_debugger_leaves_the_slot_free() {
    let mut app = App::new();
    assert_eq!(app.start(false, &vec![config("/a.cfg")]), Err(Error::ToolNotFound));
    assert_eq!(app.slot, Slot::Idle);
}

#[test]
fn failed_spawn_frees_the_slot_and_tells_the_user() {
    let mut app = App::new();
    app.start(true, &Vec::new()).unwrap();
    let sent = app.spawn_failed();
    assert_eq!(shown(&sent), vec!["notify 1 OpenOCD was not started!", "event 1"]);
    assert_eq!(Error::SpawnFailed.message(), "OpenOCD was not started!");
    assert_eq!(app.slot, Slot::Idle);
    // nothing to fail when nothing is being started
    assert!(app.spawn_failed().is_empty());
    assert_eq!(app.slot, Slot::Idle);
}

#[test]
fn spawned_makes_the_start_known() {
    let mut app = App::new();
    assert!(app.spawned(3).is_empty());
    assert_eq!(app.slot, Slot::Idle);
    app.start(true, &Vec::new()).unwrap();
    let sent = app.spawned(3);
    assert_eq!(shown(&sent), vec!["notify 0 OpenOCD started!", "event 0"]);
    assert_eq!(app.slot, Slot::Running { pid: 3 });
    assert!(app.spawned(4).is_empty());
    assert_eq!(app.slot, Slot::Running { pid: 3 });
}

#[test]
fn kill_without_a_session_is_not_running() {
    let app = App::new();
    let procs = vec![process(10, Some(1), "openocd")];
    assert_eq!(app.kill(&procs), Err(Error::NotRunning));
    assert_eq!(app.slot, Slot::Idle);
    let mut app = App::new();
    app.start(true, &Vec::new()).unwrap();
    assert_eq!(app.kill(&procs), Err(Error::NotRunning));
    assert_eq!(app.slot, Slot::Starting);
}

#[test]
fn kill_does_not_free_the_slot() {
    let mut app = App::new();
    app.start(true, &Vec::new()).unwrap();
    app.spawned(100);
    assert_eq!(app.kill(&Vec::new()), Ok(KillTarget::Handle));
    assert_eq!(app.slot, Slot::Running { pid: 100 });
    assert_eq!(shown(&App::killed()), vec!["event 1"]);
    app.stream_closed();
    assert_eq!(app.slot, Slot::Idle);
}

#[test]
fn output_lines_keep_order_and_text() {
    let mut app = App::new();
    app.start(true, &Vec::new()).unwrap();
    app.spawned(1);
    let lines = vec!["Info: init".to_string(), "Info: halted".to_string()];
    assert_eq!(
        shown(&app.lines(&lines)),
        vec!["output \"Info: init\\n\"", "output \"Info: halted\\n\""]
    );
    assert_eq!(shown(&app.line("")), vec!["output \"\\n\""]);
    assert_eq!(shown(&app.line("  tab\tand ünï ")), vec!["output \"  tab\\tand ünï \\n\""]);
    assert!(app.lines(&Vec::new()).is_empty());
    app.stream_closed();
    assert!(app.lines(&lines).is_empty());
    assert!(app.line("late").is_empty());
}

#[test]
fn started_comes_before_the_first_line_and_stopped_after_the_last() {
    let mut app = App::new();
    let mut sent: Vec<Emit> = Vec::new();
    app.start(true, &Vec::new()).unwrap();
    sent.extend(app.spawned(9));
    sent.extend(app.line("one"));
    sent.extend(app.line("two"));
    sent.extend(app.stream_closed());
    assert_eq!(
        shown(&sent),
        vec![
            "notify 0 OpenOCD started!",
            "event 0",
            "output \"one\\n\"",
            "output \"two\\n\"",
            "notify 1 OpenOCD stopped!",
            "event 1",
        ]
    );
}

#[test]
fn the_child_of_the_session_is_ended_first() {
    let procs = vec![
        process(1, None, "init"),
        process(50, Some(1), "openocd"),
        process(60, Some(40), "bash"),
        process(61, Some(40), "openocd.exe"),
        process(62, Some(40), "openocd"),
        process(63, None, "openocd"),
    ];
    assert_eq!(kill_proc(40, &procs), KillTarget::Child(61));
    assert_eq!(kill_proc(1, &procs), KillTarget::Child(50));
    assert_eq!(kill_proc(50, &procs), KillTarget::Handle);
    assert_eq!(kill_proc(40, &Vec::new()), KillTarget::Handle);
    let mut app = App::new();
    app.start(true, &Vec::new()).unwrap();
    app.spawned(40);
    assert_eq!(app.kill(&procs), Ok(KillTarget::Child(61)));
}

#[test]
fn kill_fails_only_when_every_attempt_failed() {
    assert_eq!(kill_outcome(KillTarget::Child(5), true), Ok(KillOutcome::Stopped));
    assert_eq!(kill_outcome(KillTarget::Handle, true), Ok(KillOutcome::Stopped));
    assert_eq!(kill_outcome(KillTarget::Child(5), false), Ok(KillOutcome::TryHandle));
    assert_eq!(kill_outcome(KillTarget::Handle, false), Err(Error::KillFailed));
}

#[test]
fn send_event_pairs_a_notice_with_the_event() {
    assert_eq!(
        shown(&App::send_event(Event::Start, None)),
        vec!["notify 0 OpenOCD started!", "event 0"]
    );
    assert_eq!(
        shown(&App::send_event(Event::Stop, Some("gone"))),
        vec!["notify 1 gone", "event 1"]
    );
    assert_eq!(
        shown(&App::send_event(Event::Start, Some("up"))),
        vec!["notify 0 up", "event 0"]
    );
    assert_eq!(Level::Warn.code(), 1);
}

#[test]
fn config_lists_report_a_missing_installation_as_text() {
    let app = App::new();
    let r = app.get_config_lists(Err(Error::ToolNotFound), &None, &None, &None);
    assert_eq!(r.map(|_| ()).map_err(|e: ErrorMsg| e.message), Err("OpenOCD not found!".to_string()));
    let paths = OpenocdPaths {
        board: "/s/board".to_string(),
        target: "/s/target".to_string(),
        interface: "/s/interface".to_string(),
    };
    let boards = Some(vec![Entry::file("/s/board/b.cfg")]);
    let set = app.get_config_lists(Ok(paths), &boards, &None, &None).unwrap();
    assert_eq!(set.boards.len(), 1);
    assert_eq!(set.boards[0].name, "b");
    assert!(set.interfaces.is_empty());
}

#[test]
fn answers_have_their_texts() {
    assert_eq!(Ack::Started.message(), "OpenOCD started!");
    assert_eq!(Ack::Stopped.message(), "OpenOCD stopped");
}

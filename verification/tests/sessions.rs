use bugstalker_dap::error::DapError;
use bugstalker_dap::event::{
    describe_stop, forward_output, forward_text, handle_event, next_event_step, stopped_event,
    DapEvent, EventReply, EventStep, Forwarding, ReadOutcome, StopEvent, StoppedReason,
};
use bugstalker_dap::handles::VariableEntry;
use bugstalker_dap::launch::{choose_flag, parse_stop_on_entry};
use bugstalker_dap::session::{
    next_start_step, resume, SessionState, StartReply, StartStep, ThreadLookup,
};
use bugstalker_dap::thread::ThreadSnapshot;
use nix::sys::signal::Signal;

fn json(text: &str) -> serde_json::Value {
    serde_json::from_str(text).unwrap()
}

fn thread(pid: i32, number: u32) -> ThreadSnapshot {
    ThreadSnapshot { pid, number }
}

fn internal(s: &str) -> DapError {
    DapError::Internal(s.to_string())
}

fn done(all_threads_continued: Option<bool>) -> StartStep {
    StartStep::Done { all_threads_continued }
}

fn announced(thread_id: u64) -> StartStep {
    StartStep::AnnounceContinued { thread_id, all_threads_continued: Some(true) }
}

#[test]
fn stop_on_entry_flag() {
    assert_eq!(parse_stop_on_entry(&json(r#"{"stopOnEntry": false}"#)), Some(false));
    assert_eq!(parse_stop_on_entry(&json(r#"{"stopOnEntry": true}"#)), Some(true));
    assert_eq!(parse_stop_on_entry(&json(r#"{"stop_on_entry": true}"#)), Some(true));
    let both = json(r#"{"stop_on_entry": true, "stopOnEntry": false}"#);
    assert_eq!(parse_stop_on_entry(&both), Some(false));
    assert_eq!(parse_stop_on_entry(&json(r#"{"program": "a.out"}"#)), None);
    assert_eq!(parse_stop_on_entry(&json("[true]")), None);
    assert_eq!(parse_stop_on_entry(&json("null")), None);
}

#[test]
fn flag_of_another_type_hides_the_other_spelling() {
    let raw = json(r#"{"stopOnEntry": "no", "stop_on_entry": true}"#);
    assert_eq!(parse_stop_on_entry(&raw), None);
    assert_eq!(choose_flag(Some(None), Some(Some(true))), None);
    assert_eq!(choose_flag(None, Some(Some(true))), Some(true));
    assert_eq!(choose_flag(None, None), None);
}

#[test]
fn fresh_session() {
    let session = SessionState::default();
    assert!(session.stop_on_entry);
    assert!(!session.configured);
    assert!(!session.started);
    assert!(session.thread_map.is_empty());
    assert!(session.breakpoints.entries.is_empty());
}

/// All that is done from a step on, where every step succeeds.
fn carried_out(mut step: StartStep, pid: i32) -> Vec<String> {
    let mut steps = vec![format!("{step:?}")];
    while !matches!(step, StartStep::Done { .. } | StartStep::Fail(_)) {
        step = next_start_step(step, StartReply::Done, pid);
        steps.push(format!("{step:?}"));
    }
    steps
}

fn described(steps: Vec<StartStep>) -> Vec<String> {
    steps.iter().map(|step| format!("{step:?}")).collect()
}

#[test]
fn configuration_done_runs_debuggee() {
    for raw in [None, Some("{}"), Some(r#"{"stopOnEntry": true}"#)] {
        let mut session = SessionState::default();
        if let Some(raw) = raw {
            assert_eq!(session.launch(&json(raw)), done(None));
        }
        assert_eq!(
            carried_out(session.configuration_done(), 5),
            described(vec![StartStep::StartDebuggee { stop_on_entry: true }, done(None)])
        );
    }
    let mut session = SessionState::default();
    assert_eq!(session.launch(&json(r#"{"stopOnEntry": false}"#)), done(None));
    assert_eq!(
        carried_out(session.configuration_done(), 5),
        described(vec![
            StartStep::StartDebuggee { stop_on_entry: false },
            announced(5),
            StartStep::ContinueDebuggee,
            done(Some(true)),
        ])
    );
}

#[test]
fn continue_is_for_all_threads() {
    assert_eq!(
        carried_out(resume(9), 9),
        described(vec![announced(9), StartStep::ContinueDebuggee, done(Some(true))])
    );
}

#[test]
fn debuggee_starts_once_configured() {
    let mut session = SessionState::default();
    assert_eq!(session.launch(&json(r#"{"stopOnEntry": false}"#)), done(None));
    assert!(!session.started);
    assert_eq!(session.configuration_done(), StartStep::StartDebuggee { stop_on_entry: false });
    assert!(session.started);
    assert_eq!(session.configuration_done(), done(None));
    assert_eq!(session.launch(&json("{}")), done(None));
    assert_eq!(session.attach(&json(r#"{"stopOnEntry": true}"#)), done(None));
    assert!(session.stop_on_entry);
    assert_eq!(session.start_if_needed(), done(None));
}

#[test]
fn attach_sets_the_flag() {
    let mut session = SessionState::default();
    assert_eq!(session.attach(&json(r#"{"stop_on_entry": false}"#)), done(None));
    assert!(!session.stop_on_entry);
    assert_eq!(session.launch_with(None), done(None));
    assert!(!session.stop_on_entry);
}

#[test]
fn start_and_stop_on_entry() {
    let step = StartStep::StartDebuggee { stop_on_entry: true };
    assert_eq!(next_start_step(step, StartReply::Done, 5), done(None));
}

#[test]
fn start_and_run_on() {
    let step = StartStep::StartDebuggee { stop_on_entry: false };
    let step = next_start_step(step, StartReply::Done, 5);
    assert_eq!(step, announced(5));
    assert_eq!(step, resume(5));
    let step = next_start_step(step, StartReply::Done, 5);
    assert_eq!(step, StartStep::ContinueDebuggee);
    assert_eq!(next_start_step(step, StartReply::Done, 5), done(Some(true)));
}

#[test]
fn failed_starts() {
    let step = StartStep::StartDebuggee { stop_on_entry: false };
    let failed = next_start_step(step, StartReply::Failed(internal("debugger error: x")), 5);
    assert_eq!(failed, StartStep::Fail(internal("debugger error: x")));
    let failed = next_start_step(resume(5), StartReply::NotSent("closed".to_string()), 5);
    assert_eq!(failed, StartStep::Fail(internal("send continued event: closed")));
    let failed = next_start_step(StartStep::ContinueDebuggee, StartReply::Failed(internal("y")), 5);
    assert_eq!(failed, StartStep::Fail(internal("y")));
    assert_eq!(resume(-1), announced(u64::MAX));
}

#[test]
fn threads_are_shown_and_remembered() {
    let mut session = SessionState::default();
    let shown = session.threads(&vec![thread(100, 1), thread(101, 2)]);
    assert_eq!(shown.len(), 2);
    assert_eq!((shown[0].id, shown[0].name.as_str()), (100, "Thread 100"));
    assert_eq!((shown[1].id, shown[1].name.as_str()), (101, "Thread 101"));
    assert_eq!(session.ensure_thread_number(101, None), ThreadLookup::Found(2));
    session.threads(&vec![thread(100, 7)]);
    assert_eq!(session.ensure_thread_number(100, None), ThreadLookup::Found(7));
    assert_eq!(session.ensure_thread_number(101, None), ThreadLookup::ReadThreads);
    let shown = session.threads(&vec![thread(-1, 3)]);
    assert_eq!((shown[0].id, shown[0].name.as_str()), (u64::MAX, "Thread -1"));
}

#[test]
fn unknown_thread_is_looked_up() {
    let mut session = SessionState::default();
    assert_eq!(session.ensure_thread_number(5, None), ThreadLookup::ReadThreads);
    let listed = vec![thread(4, 1), thread(5, 2), thread(5, 9)];
    assert_eq!(session.ensure_thread_number(5, Some(&listed)), ThreadLookup::Found(9));
    assert_eq!(session.ensure_thread_number(4, None), ThreadLookup::Found(1));
    assert_eq!(session.ensure_thread_number(6, Some(&vec![])), ThreadLookup::Missing(
        DapError::Invalid("thread pid 6 not found".to_string())
    ));
    assert_eq!(session.ensure_thread_number(5, None), ThreadLookup::Found(9));
}

#[test]
fn variables_of_a_session() {
    let mut session = SessionState::default();
    assert_eq!(session.variables(0), Ok(vec![]));
    assert_eq!(
        session.variables(1),
        Err(DapError::Invalid("unknown variablesReference 1".to_string()))
    );
    session.variables.insert(VariableEntry::new(vec![]));
    assert_eq!(session.variables(1), Ok(vec![]));
}

#[test]
fn hook_events() {
    assert_eq!(DapEvent::on_breakpoint(3), DapEvent::Stopped(StopEvent::Breakpoint { id: 3 }));
    assert_eq!(DapEvent::on_watchpoint(), DapEvent::Stopped(StopEvent::Watchpoint));
    assert_eq!(DapEvent::on_step(), DapEvent::Stopped(StopEvent::Step));
    assert_eq!(DapEvent::on_async_step(), DapEvent::Stopped(StopEvent::Step));
    assert_eq!(
        DapEvent::on_signal(Signal::SIGSEGV),
        DapEvent::Stopped(StopEvent::Signal { signal: Signal::SIGSEGV })
    );
    assert_eq!(DapEvent::on_exit(-1), DapEvent::Exited { code: -1 });
}

#[test]
fn stops_are_described() {
    let event = stopped_event(StopEvent::Breakpoint { id: 12 }, 7);
    assert_eq!(event.reason, StoppedReason::Breakpoint);
    assert_eq!(event.text, Some("Hit breakpoint #12".to_string()));
    assert_eq!(event.hit_breakpoint_ids, Some(vec![12]));
    assert_eq!(event.thread_id, Some(7));
    assert_eq!(event.all_threads_stopped, Some(true));
    let event = stopped_event(StopEvent::Step, 7);
    assert_eq!((event.reason, event.text), (StoppedReason::Step, None));
    assert_eq!(event.hit_breakpoint_ids, None);
    let event = stopped_event(StopEvent::Signal { signal: Signal::SIGSEGV }, 7);
    assert_eq!(event.reason, StoppedReason::Exception);
    assert_eq!(event.text, Some("Signal SIGSEGV".to_string()));
    let event = stopped_event(StopEvent::Watchpoint, -2);
    assert_eq!(event.reason, StoppedReason::DataBreakpoint);
    assert_eq!(event.text, Some("Watchpoint triggered".to_string()));
    assert_eq!(event.thread_id, Some(u64::MAX - 1));
    let event = describe_stop(StopEvent::Signal { signal: Signal::SIGINT }, "SIGNAME", 1);
    assert_eq!(event.text, Some("Signal SIGNAME".to_string()));
}

#[test]
fn signals_are_named_as_displayed() {
    for signal in [Signal::SIGINT, Signal::SIGTERM, Signal::SIGUSR1, Signal::SIGTRAP] {
        let event = stopped_event(StopEvent::Signal { signal }, 1);
        assert_eq!(event.text, Some(format!("Signal {signal}")));
    }
}

#[test]
fn stop_forgets_variables() {
    let mut session = SessionState::default();
    session.variables.insert(VariableEntry::new(vec![]));
    let step = handle_event(&mut session, DapEvent::on_step());
    assert_eq!(step, EventStep::ReadFocus(StopEvent::Step));
    assert!(session.variables(1).is_err());
    let step = next_event_step(step, EventReply::Focus(9));
    assert_eq!(step, EventStep::SendStopped(stopped_event(StopEvent::Step, 9)));
    assert_eq!(next_event_step(step, EventReply::Sent), EventStep::Done);
}

#[test]
fn exit_is_followed_by_termination() {
    let mut session = SessionState::default();
    session.configured = true;
    session.variables.insert(VariableEntry::new(vec![]));
    let step = handle_event(&mut session, DapEvent::on_exit(-1));
    assert_eq!(step, EventStep::SendExited { exit_code: u64::MAX });
    assert!(session.variables(1).is_err());
    assert!(session.configured);
    let step = next_event_step(step, EventReply::Sent);
    assert_eq!(step, EventStep::SendTerminated);
    assert_eq!(next_event_step(step, EventReply::Sent), EventStep::Done);
}

#[test]
fn output_keeps_variables() {
    let mut session = SessionState::default();
    session.variables.insert(VariableEntry::new(vec![]));
    let output = DapEvent::Output { category: "stdout".to_string(), message: "hi".to_string() };
    let step = handle_event(&mut session, output);
    assert_eq!(
        step,
        EventStep::SendOutput { category: "stdout".to_string(), message: "hi".to_string() }
    );
    assert!(session.variables(1).is_ok());
    assert_eq!(next_event_step(step, EventReply::Sent), EventStep::Done);
}

#[test]
fn events_that_are_not_sent() {
    let not_sent = || EventReply::NotSent("closed".to_string());
    let stopped = EventStep::SendStopped(stopped_event(StopEvent::Step, 1));
    assert_eq!(
        next_event_step(stopped, not_sent()),
        EventStep::Fail(internal("send stopped event: closed"))
    );
    let output = EventStep::SendOutput { category: String::new(), message: String::new() };
    assert_eq!(
        next_event_step(output, not_sent()),
        EventStep::Fail(internal("send output event: closed"))
    );
    assert_eq!(
        next_event_step(EventStep::SendExited { exit_code: 0 }, not_sent()),
        EventStep::Fail(internal("send exited event: closed"))
    );
    assert_eq!(
        next_event_step(EventStep::SendTerminated, not_sent()),
        EventStep::Fail(internal("send terminated event: closed"))
    );
    assert_eq!(
        next_event_step(EventStep::ReadFocus(StopEvent::Step), EventReply::Failed(internal("x"))),
        EventStep::Fail(internal("x"))
    );
    assert_eq!(next_event_step(EventStep::Done, EventReply::Sent), EventStep::Done);
}

fn output(category: &str, message: &str) -> Option<DapEvent> {
    Some(DapEvent::Output { category: category.to_string(), message: message.to_string() })
}

#[test]
fn output_is_forwarded() {
    let read = ReadOutcome::Bytes("héllo\n".as_bytes().to_vec());
    assert_eq!(
        forward_output("stdout", &read),
        Forwarding { event: output("stdout", "héllo\n"), read_on: true }
    );
    let read = ReadOutcome::Bytes(vec![b'a', 0xff, b'b']);
    assert_eq!(
        forward_output("stderr", &read),
        Forwarding { event: output("stderr", "a\u{fffd}b"), read_on: true }
    );
}

#[test]
fn end_of_output_stops_forwarding() {
    assert_eq!(
        forward_output("stdout", &ReadOutcome::Bytes(vec![])),
        Forwarding { event: None, read_on: false }
    );
}

#[test]
fn failed_read_is_reported_as_error() {
    assert_eq!(
        forward_output("stdout", &ReadOutcome::Failed("broken pipe".to_string())),
        Forwarding { event: output("stderr", "I/O error: broken pipe"), read_on: false }
    );
    let read = ReadOutcome::Bytes(vec![1]);
    assert_eq!(
        forward_text("stdout", &read, "given".to_string()).event,
        output("stdout", "given")
    );
}

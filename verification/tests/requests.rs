use bugstalker_dap::application::{initialize, DapApplication};
use bugstalker_dap::breakpoint::{
    convert_breakpoint, set_breakpoints, Breakpoint, BreakpointInfo, SetOutcome,
};
use bugstalker_dap::error::{
    expression_error, internal_error, map_debugger_err, parse_expression, DapError,
};
use bugstalker_dap::evaluate::{evaluate, EvaluateReply, EvaluateRequest, EvaluateStep};
use bugstalker_dap::focus::FrameTarget;
use bugstalker_dap::frame::{Place, Source};
use bugstalker_dap::handles::VariableHandles;
use bugstalker_dap::node::make_variable_node;
use bugstalker_dap::placement::PlacedBreakpoints;
use bugstalker_dap::query::{QueryResult, QueryResultKind};
use bugstalker_dap::scope::{begin_scopes, make_scopes, scopes, ScopeHint, ScopesReply, ScopesStep};
use bugstalker_dap::value::{DebugValue, ValueLayout};

fn text(s: &str) -> Option<String> {
    Some(s.to_string())
}

fn internal(s: &str) -> DapError {
    DapError::Internal(s.to_string())
}

fn invalid(s: &str) -> DapError {
    DapError::Invalid(s.to_string())
}

fn result(name: &str, rendered: &str) -> QueryResult {
    QueryResult {
        kind: QueryResultKind::Root,
        name: text(name),
        identity: name.to_string(),
        value: DebugValue {
            ty: "i32".to_string(),
            location: Some(16),
            layout: Some(ValueLayout::PreRendered(rendered.to_string())),
        },
    }
}

#[test]
fn application_keeps_its_parts() {
    let application = DapApplication::new("builder", 7, 'o', 'e');
    assert_eq!(application.debugger_builder, "builder");
    assert_eq!(application.process, 7);
    assert_eq!((application.stdout, application.stderr), ('o', 'e'));
}

#[test]
fn capabilities() {
    let offered = initialize();
    assert!(offered.supports_configuration_done_request);
    assert!(offered.supports_cancel_request);
    assert!(!offered.supports_restart_request);
    assert!(offered.supports_terminate_request);
}

#[test]
fn errors_name_their_context() {
    assert_eq!(internal_error("send SIGINT", "ESRCH"), internal("send SIGINT: ESRCH"));
    assert_eq!(map_debugger_err("no tracee"), internal("debugger error: no tracee"));
}

#[test]
fn parse_errors_are_joined() {
    assert_eq!(parse_expression::<u8>(Ok(3)), Ok(3));
    let errors = vec!["a".to_string(), "b".to_string()];
    assert_eq!(expression_error(&errors), invalid("invalid expression: a, b"));
    assert_eq!(parse_expression::<u8>(Err(errors)), Err(invalid("invalid expression: a, b")));
    assert_eq!(parse_expression::<u8>(Err(vec![])), Err(invalid("invalid expression: ")));
}

fn place(line_number: u64) -> Option<Place> {
    Some(Place { file: "/src/real.rs".to_string(), line_number, column_number: 0 })
}

#[test]
fn breakpoint_with_place() {
    let info = BreakpointInfo { number: 3, place: place(12) };
    assert_eq!(
        convert_breakpoint(Some(info), 10, "/src/asked.rs"),
        Breakpoint {
            id: Some(3),
            verified: true,
            line: Some(12),
            source: Some(Source { name: text("real.rs"), path: text("/src/real.rs") }),
            message: None,
        }
    );
}

#[test]
fn breakpoint_without_place() {
    let info = BreakpointInfo { number: 3, place: None };
    assert_eq!(
        convert_breakpoint(Some(info), 10, "/src/asked.rs"),
        Breakpoint { id: Some(3), verified: true, line: Some(10), source: None, message: None }
    );
}

#[test]
fn breakpoint_that_is_not_set() {
    assert_eq!(
        convert_breakpoint(None, 10, "/src/asked.rs"),
        Breakpoint {
            id: None,
            verified: false,
            line: Some(10),
            source: Some(Source { name: text("asked.rs"), path: text("/src/asked.rs") }),
            message: text("Failed to set breakpoint"),
        }
    );
}

#[test]
fn breakpoints_need_a_path() {
    let known = PlacedBreakpoints::default();
    assert_eq!(set_breakpoints(&known, None, Some(vec![1])), Err(invalid("source path required")));
    let batch = set_breakpoints(&known, text("a.rs"), None).unwrap();
    assert_eq!(batch.pending(), None);
    assert_eq!(batch.pending_removal(), None);
}

#[test]
fn breakpoints_are_answered_in_order() {
    let known = PlacedBreakpoints::default();
    let mut batch = set_breakpoints(&known, text("/src/asked.rs"), Some(vec![5, 6, 7])).unwrap();
    assert_eq!(batch.pending(), Some(5));
    batch.record(SetOutcome::Placed(vec![
        BreakpointInfo { number: 1, place: None },
        BreakpointInfo { number: 2, place: None },
    ]));
    assert_eq!(batch.pending(), Some(6));
    batch.record(SetOutcome::Refused("no such line".to_string()));
    assert_eq!(batch.pending(), Some(7));
    batch.record(SetOutcome::Placed(vec![]));
    assert_eq!(batch.pending(), None);
    batch.record(SetOutcome::Placed(vec![]));
    assert_eq!(batch.results.len(), 3);
    assert_eq!(batch.results[0].id, Some(2));
    assert_eq!(
        batch.results[1],
        Breakpoint {
            id: None,
            verified: false,
            line: Some(6),
            source: None,
            message: text("no such line"),
        }
    );
    assert_eq!(batch.results[2].message, text("Failed to set breakpoint"));
    assert_eq!(batch.results[2].line, Some(7));
}

#[test]
fn scopes_of_a_frame() {
    let mut store = VariableHandles::default();
    let step = begin_scopes(0x2a_0000_0003);
    assert_eq!(step, ScopesStep::FindThread { pid: 42, frame_index: 3 });
    let step = scopes(&mut store, step, ScopesReply::ThreadNumber(2));
    let target = FrameTarget { thread_number: 2, thread_pid: 42, frame_index: 3 };
    assert_eq!(step, ScopesStep::ReadVariables(target));
    let reply = ScopesReply::Variables {
        locals: vec![result("x", "1"), result("", "2")],
        arguments: vec![result("", "3")],
    };
    let shown = match scopes(&mut store, step, reply) {
        ScopesStep::Reply(shown) => shown,
        _ => panic!("no reply"),
    };
    assert_eq!(shown.len(), 2);
    assert_eq!(shown[0].name, "Locals");
    assert_eq!(shown[0].presentation_hint, ScopeHint::Locals);
    assert_eq!(shown[0].named_variables, Some(2));
    assert_eq!(shown[0].variables_reference, 1);
    assert!(!shown[0].expensive);
    assert_eq!(shown[1].name, "Arguments");
    assert_eq!(shown[1].presentation_hint, ScopeHint::Arguments);
    assert_eq!(shown[1].named_variables, Some(1));
    assert_eq!(shown[1].variables_reference, 2);
    let locals = store.render(1).unwrap();
    assert_eq!((locals[0].name.as_str(), locals[1].name.as_str()), ("x", "local1"));
    assert_eq!(store.render(2).unwrap()[0].name, "arg0");
}

#[test]
fn empty_scopes_have_references() {
    let mut store = VariableHandles::default();
    let shown = make_scopes(&mut store, vec![], vec![]);
    assert_eq!(shown[0].named_variables, Some(0));
    assert_eq!(shown[1].variables_reference, 2);
    assert_eq!(store.render(2), Ok(vec![]));
}

#[test]
fn failed_scopes() {
    let mut store = VariableHandles::default();
    let failed = scopes(&mut store, begin_scopes(1), ScopesReply::Failed(invalid("no thread")));
    assert_eq!(failed, ScopesStep::Fail(invalid("no thread")));
    let target = FrameTarget { thread_number: 1, thread_pid: 1, frame_index: 0 };
    let failed = scopes(
        &mut store,
        ScopesStep::ReadVariables(target),
        ScopesReply::Failed(internal("debugger error: x")),
    );
    assert_eq!(failed, ScopesStep::Fail(internal("debugger error: x")));
    assert!(store.render(1).is_err());
}

fn expression(frame_id: Option<u64>) -> EvaluateRequest {
    EvaluateRequest { expression: "a.b".to_string(), frame_id }
}

#[test]
fn evaluate_in_frame() {
    let mut store = VariableHandles::default();
    let request = expression(Some(0x2a_0000_0001));
    let step = evaluate(&request, &mut store, EvaluateStep::Parse, EvaluateReply::Parsed);
    assert_eq!(step, EvaluateStep::FindThread { pid: 42, frame_index: 1 });
    let step = evaluate(&request, &mut store, step, EvaluateReply::ThreadNumber(3));
    let target = FrameTarget { thread_number: 3, thread_pid: 42, frame_index: 1 };
    assert_eq!(step, EvaluateStep::Read { target: Some(target) });
    let results = vec![result("b", "1"), result("c", "2")];
    let response = match evaluate(&request, &mut store, step, EvaluateReply::Results(results)) {
        EvaluateStep::Reply(response) => response,
        _ => panic!("no reply"),
    };
    assert_eq!(response.result, "1");
    assert_eq!(response.ty, text("i32"));
    assert_eq!(response.memory_reference, text("0x10"));
    assert_eq!(response.variables_reference, 1);
    let shown = store.render(1).unwrap();
    assert_eq!(shown[0].name, "b");
    assert_eq!(shown[0].evaluate_name, text("a.b"));
    assert_eq!(shown[1].evaluate_name, text("c"));
}

#[test]
fn evaluate_without_frame_or_result() {
    let mut store = VariableHandles::default();
    let request = expression(None);
    let step = evaluate(&request, &mut store, EvaluateStep::Parse, EvaluateReply::Parsed);
    assert_eq!(step, EvaluateStep::Read { target: None });
    match evaluate(&request, &mut store, step, EvaluateReply::Results(vec![])) {
        EvaluateStep::Reply(response) => {
            assert_eq!(response.result, "");
            assert_eq!(response.ty, None);
            assert_eq!(response.memory_reference, None);
            assert_eq!(response.variables_reference, 0);
        }
        _ => panic!("no reply"),
    }
    assert!(store.render(1).is_err());
}

#[test]
fn unparsed_expression_is_refused() {
    let mut store = VariableHandles::default();
    let reply = EvaluateReply::NotParsed(vec!["unexpected )".to_string()]);
    let step = evaluate(&expression(None), &mut store, EvaluateStep::Parse, reply);
    assert_eq!(step, EvaluateStep::Fail(invalid("invalid expression: unexpected )")));
}

#[test]
fn failed_evaluation() {
    let mut store = VariableHandles::default();
    let request = expression(Some(1));
    let step = EvaluateStep::FindThread { pid: 0, frame_index: 1 };
    let failed = evaluate(&request, &mut store, step, EvaluateReply::Failed(invalid("gone")));
    assert_eq!(failed, EvaluateStep::Fail(invalid("gone")));
    let step = EvaluateStep::Read { target: None };
    let failed = evaluate(&request, &mut store, step, EvaluateReply::Failed(internal("x")));
    assert_eq!(failed, EvaluateStep::Fail(internal("x")));
    let stray = evaluate(&request, &mut store, EvaluateStep::Parse, EvaluateReply::ThreadNumber(1));
    assert_eq!(stray, EvaluateStep::Parse);
}

#[test]
fn unnamed_result_is_named_by_expression() {
    let mut store = VariableHandles::default();
    let node = make_variable_node(None, &result("", "9").value, None);
    let response =
        bugstalker_dap::evaluate::make_response(&mut store, vec![node], &"1 + 8".to_string());
    assert_eq!(response.result, "9");
    assert_eq!(store.render(1).unwrap()[0].name, "1 + 8");
}

/// A debugger that numbers its breakpoints, and knows the line of each.
struct Breakpoints {
    set: Vec<(u32, String, u32)>,
    next: u32,
    removable: bool,
}

impl Breakpoints {
    fn request(&mut self, known: &mut PlacedBreakpoints, path: &str, lines: Vec<u32>) -> usize {
        let mut batch = set_breakpoints(known, text(path), Some(lines)).unwrap();
        while let Some(line) = batch.pending() {
            assert_eq!(batch.pending_removal(), None);
            if line > 100 {
                batch.record(SetOutcome::Refused("no such line".to_string()));
                continue;
            }
            let there = self.set.iter().find(|(_, p, l)| p.as_str() == path && *l == line);
            let number = match there {
                Some((number, _, _)) => *number,
                None => {
                    self.next += 1;
                    self.set.push((self.next, path.to_string(), line));
                    self.next
                }
            };
            batch.record(SetOutcome::Placed(vec![BreakpointInfo { number, place: None }]));
        }
        let mut removals = 0;
        while let Some(number) = batch.pending_removal() {
            if self.removable {
                self.set.retain(|(n, _, _)| *n != number);
            }
            batch.record_removal(self.removable);
            removals += 1;
        }
        batch.finish(known);
        removals
    }

    fn lines(&self, path: &str) -> Vec<u32> {
        self.set.iter().filter(|(_, p, _)| p.as_str() == path).map(|(_, _, l)| *l).collect()
    }
}

#[test]
fn request_replaces_earlier_breakpoints() {
    let mut known = PlacedBreakpoints::default();
    let mut debugger = Breakpoints { set: vec![], next: 0, removable: true };
    assert_eq!(debugger.request(&mut known, "a.rs", vec![10, 20]), 0);
    assert_eq!(debugger.request(&mut known, "b.rs", vec![10]), 0);
    assert_eq!(debugger.request(&mut known, "a.rs", vec![20, 30, 101]), 1);
    assert_eq!(debugger.lines("a.rs"), vec![20, 30]);
    assert_eq!(debugger.lines("b.rs"), vec![10]);
    assert_eq!(known.numbers(&"a.rs".to_string()), vec![2, 4]);
    assert_eq!(known.numbers(&"b.rs".to_string()), vec![3]);
    assert_eq!(debugger.request(&mut known, "a.rs", vec![]), 2);
    assert_eq!(debugger.lines("a.rs"), Vec::<u32>::new());
    assert_eq!(known.numbers(&"a.rs".to_string()), Vec::<u32>::new());
    assert_eq!(debugger.lines("b.rs"), vec![10]);
}

#[test]
fn unremoved_breakpoints_are_removed_later() {
    let mut known = PlacedBreakpoints::default();
    let mut debugger = Breakpoints { set: vec![], next: 0, removable: false };
    debugger.request(&mut known, "a.rs", vec![10]);
    assert_eq!(debugger.request(&mut known, "a.rs", vec![20]), 1);
    assert_eq!(debugger.lines("a.rs"), vec![10, 20]);
    assert_eq!(known.numbers(&"a.rs".to_string()), vec![2, 1]);
    debugger.removable = true;
    assert_eq!(debugger.request(&mut known, "a.rs", vec![20]), 1);
    assert_eq!(debugger.lines("a.rs"), vec![20]);
    assert_eq!(known.numbers(&"a.rs".to_string()), vec![2]);
}

#[test]
fn unfinished_request_forgets_nothing() {
    let mut known = PlacedBreakpoints::default();
    known.update(&"a.rs".to_string(), &vec![7, 8]);
    let batch = set_breakpoints(&known, text("a.rs"), Some(vec![1])).unwrap();
    assert_eq!(batch.pending_removal(), None);
    batch.finish(&mut known);
    assert_eq!(known.numbers(&"a.rs".to_string()), vec![7, 8]);
}

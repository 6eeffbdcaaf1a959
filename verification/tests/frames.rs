use bugstalker_dap::focus::{
    with_thread_frame, Focus, FrameTarget, FrameVisit, VisitReply, VisitStep,
};
use bugstalker_dap::frame::{
    collect_stack_frames, decode_frame_id, encode_frame_id, make_source, make_stack_frame,
    page_frames, stack_trace, BacktraceFrame, Place, Source, StackFrame, StackReply, StackRequest,
    StackStep,
};
use bugstalker_dap::thread::{find_thread, ThreadSnapshot};

fn text(s: &str) -> Option<String> {
    Some(s.to_string())
}

fn thread(pid: i32, number: u32) -> ThreadSnapshot {
    ThreadSnapshot { pid, number }
}

fn frame(name: &str) -> BacktraceFrame {
    BacktraceFrame { func_name: text(name), place: None }
}

fn backtrace(n: usize) -> Vec<BacktraceFrame> {
    (0..n).map(|i| frame(&format!("f{i}"))).collect()
}

fn request(start: Option<u32>, levels: Option<u32>) -> StackRequest {
    StackRequest { thread_pid: 42, start, levels }
}

fn names(request: &StackRequest, n: usize) -> Vec<String> {
    page_frames(request, &backtrace(n)).into_iter().map(|f| f.name).collect()
}

#[test]
fn frame_ids_round_trip() {
    for pid in [0i32, 1, 4242, i32::MAX, -1, i32::MIN] {
        for index in [0u32, 1, 7, u32::MAX] {
            let id = encode_frame_id(pid, index as u64);
            assert_eq!(id, ((pid as u64) << 32) | index as u64);
            assert_eq!(decode_frame_id(id), (pid, index));
        }
    }
    assert_eq!(encode_frame_id(1, 2), 0x1_0000_0002);
    assert_eq!(decode_frame_id(u64::MAX), (-1, u32::MAX));
    for id in [0u64, 5, 0x8000_0000_0000_0001, 0x0000_1092_0000_0003] {
        let (pid, index) = decode_frame_id(id);
        assert_eq!(encode_frame_id(pid, index as u64), id);
    }
}

#[test]
fn sources_are_named_by_file() {
    assert_eq!(
        make_source("/src/main.rs"),
        Source { name: text("main.rs"), path: text("/src/main.rs") }
    );
    assert_eq!(make_source("/"), Source { name: None, path: text("/") });
}

#[test]
fn stack_frame_with_place() {
    let place = |column_number| {
        Some(Place { file: "/a/b.rs".to_string(), line_number: 10, column_number })
    };
    let shown = make_stack_frame(7, 3, &BacktraceFrame { func_name: text("main"), place: place(5) });
    assert_eq!(
        shown,
        StackFrame {
            id: 0x7_0000_0003,
            name: "main".to_string(),
            line: 10,
            column: 5,
            source: Some(Source { name: text("b.rs"), path: text("/a/b.rs") }),
        }
    );
    let shown = make_stack_frame(7, 0, &BacktraceFrame { func_name: None, place: place(0) });
    assert_eq!(shown.column, 1);
    assert_eq!(shown.name, "<unknown>");
}

#[test]
fn stack_frame_without_place() {
    let shown = make_stack_frame(7, 0, &frame("f"));
    assert_eq!((shown.line, shown.column), (0, 0));
    assert_eq!(shown.source, None);
}

#[test]
fn long_lines_are_truncated() {
    let place = Some(Place {
        file: "x".to_string(),
        line_number: 0x1_0000_0005,
        column_number: 0x1_0000_0000,
    });
    let shown = make_stack_frame(7, 0, &BacktraceFrame { func_name: None, place });
    assert_eq!((shown.line, shown.column), (5, 0));
}

#[test]
fn pages_of_a_stack() {
    assert_eq!(names(&request(None, None), 3), ["f0", "f1", "f2"]);
    assert_eq!(names(&request(Some(1), None), 3), ["f1", "f2"]);
    assert_eq!(names(&request(Some(1), Some(1)), 3), ["f1"]);
    assert_eq!(names(&request(None, Some(2)), 3), ["f0", "f1"]);
    assert_eq!(names(&request(Some(2), Some(9)), 3), ["f2"]);
    assert!(names(&request(Some(3), Some(1)), 3).is_empty());
    assert!(names(&request(Some(u32::MAX), Some(u32::MAX)), 3).is_empty());
    assert!(names(&request(None, Some(0)), 3).is_empty());
}

#[test]
fn pages_join() {
    let mut near = page_frames(&request(Some(1), Some(2)), &backtrace(6));
    near.extend(page_frames(&request(Some(3), Some(2)), &backtrace(6)));
    assert_eq!(near, page_frames(&request(Some(1), Some(4)), &backtrace(6)));
}

#[test]
fn page_ids_name_positions() {
    let page = page_frames(&request(Some(2), None), &backtrace(4));
    assert_eq!(decode_frame_id(page[1].id), (42, 3));
}

#[test]
fn stack_requests_are_read() {
    assert_eq!(
        stack_trace(42, Some(3), None),
        StackRequest { thread_pid: 42, start: Some(3), levels: None }
    );
    let wide = stack_trace(u64::MAX, Some(0x1_0000_0002), Some(0x1_0000_0000));
    assert_eq!(wide, StackRequest { thread_pid: -1, start: Some(2), levels: Some(0) });
}

#[test]
fn threads_are_found_by_pid() {
    let threads = vec![thread(10, 1), thread(11, 2), thread(11, 3)];
    assert_eq!(find_thread(&threads, 11), Some(2));
    assert_eq!(find_thread(&threads, 12), None);
    assert_eq!(find_thread(&vec![], 12), None);
}

#[test]
fn stack_of_listed_thread() {
    let request = request(None, Some(1));
    let step = collect_stack_frames(
        &request,
        StackStep::ReadThreads,
        StackReply::Threads(vec![thread(41, 1), thread(42, 2)]),
    );
    assert_eq!(step, StackStep::FocusThread(2));
    let step = collect_stack_frames(&request, step, StackReply::Focused);
    assert_eq!(step, StackStep::ReadBacktrace(42));
    let step = collect_stack_frames(&request, step, StackReply::Backtrace(backtrace(3)));
    match step {
        StackStep::Reply(trace) => {
            assert_eq!(trace.total_frames, 3);
            assert_eq!(trace.stack_frames.len(), 1);
            assert_eq!(trace.stack_frames[0].name, "f0");
        }
        _ => panic!("no reply"),
    }
}

#[test]
fn stack_of_unlisted_thread() {
    let step = collect_stack_frames(
        &request(None, None),
        StackStep::ReadThreads,
        StackReply::Threads(vec![thread(41, 1)]),
    );
    assert_eq!(step, StackStep::ReadBacktrace(42));
}

#[test]
fn failed_stack_request() {
    let request = request(None, None);
    for step in [StackStep::ReadThreads, StackStep::FocusThread(1), StackStep::ReadBacktrace(42)] {
        let step = collect_stack_frames(&request, step, StackReply::Failed);
        assert_eq!(step, StackStep::Abandon);
        assert_eq!(collect_stack_frames(&request, step, StackReply::Focused), StackStep::Abandon);
    }
    let stray = collect_stack_frames(&request, StackStep::ReadThreads, StackReply::Focused);
    assert_eq!(stray, StackStep::ReadThreads);
}

/// A debugger with threads, which remembers where it looks.
struct Model {
    threads: Vec<ThreadSnapshot>,
    focus: Focus,
    ran_at: Vec<Focus>,
    runs: bool,
}

impl Model {
    fn visit(&mut self, target: FrameTarget) -> (VisitStep, Vec<VisitStep>) {
        let visit = FrameVisit { target, home: self.focus };
        let mut step = visit.begin();
        let mut steps = Vec::new();
        loop {
            steps.push(step);
            let reply = match step {
                VisitStep::ReadThreads => VisitReply::Threads(self.threads.clone()),
                VisitStep::EnterThread { number, .. } | VisitStep::LeaveThread { number } => {
                    match self.threads.iter().find(|t| t.number == number) {
                        Some(t) => {
                            self.focus = Focus { pid: t.pid, frame: 0 };
                            VisitReply::ThreadFocused { frame: 0 }
                        }
                        None => VisitReply::Failed,
                    }
                }
                VisitStep::EnterFrame { frame, .. } | VisitStep::LeaveFrame { frame } => {
                    self.focus.frame = frame;
                    VisitReply::FrameFocused
                }
                VisitStep::Run { .. } => {
                    self.ran_at.push(self.focus);
                    if self.runs {
                        VisitReply::Ran
                    } else {
                        VisitReply::Failed
                    }
                }
                _ => return (step, steps),
            };
            step = with_thread_frame(&visit, step, reply);
        }
    }
}

fn model(pid: i32, frame: u32) -> Model {
    Model {
        threads: vec![thread(10, 1), thread(11, 2)],
        focus: Focus { pid, frame },
        ran_at: Vec::new(),
        runs: true,
    }
}

fn target(pid: i32, number: u32, frame_index: u32) -> FrameTarget {
    FrameTarget { thread_number: number, thread_pid: pid, frame_index }
}

#[test]
fn visit_of_other_thread_restores_focus() {
    for home_frame in [0, 4] {
        for frame in [0, 3] {
            let mut model = model(10, home_frame);
            let (last, _) = model.visit(target(11, 2, frame));
            assert_eq!(last, VisitStep::Finish);
            assert_eq!(model.focus, Focus { pid: 10, frame: home_frame });
            assert_eq!(model.ran_at, vec![Focus { pid: 11, frame }]);
        }
    }
}

#[test]
fn failed_run_restores_focus() {
    for (pid, number) in [(10, 1), (11, 2)] {
        let mut model = Model { runs: false, ..model(10, 4) };
        let (last, _) = model.visit(target(pid, number, 3));
        assert_eq!(last, VisitStep::Finish);
        assert_eq!(model.focus, Focus { pid: 10, frame: 4 });
        assert_eq!(model.ran_at, vec![Focus { pid, frame: 3 }]);
    }
}

#[test]
fn visit_of_same_thread_restores_focus() {
    let mut model = model(10, 1);
    let (last, steps) = model.visit(target(10, 1, 5));
    assert_eq!(last, VisitStep::Finish);
    assert_eq!(model.focus, Focus { pid: 10, frame: 1 });
    assert_eq!(model.ran_at, vec![Focus { pid: 10, frame: 5 }]);
    assert_eq!(
        steps,
        vec![
            VisitStep::EnterFrame { frame: 5, home: None },
            VisitStep::Run { home: None },
            VisitStep::LeaveFrame { frame: 1 },
            VisitStep::Finish,
        ]
    );
}

#[test]
fn visit_of_same_frame_moves_nothing() {
    let (_, steps) = model(10, 2).visit(target(10, 1, 2));
    assert_eq!(steps, vec![VisitStep::Run { home: None }, VisitStep::Finish]);
}

#[test]
fn visit_needs_way_back() {
    let mut model = model(99, 0);
    let (last, steps) = model.visit(target(11, 2, 0));
    assert_eq!(last, VisitStep::TraceeNotFound(99));
    assert_eq!(steps.len(), 2);
    assert_eq!(model.focus, Focus { pid: 99, frame: 0 });
    assert!(model.ran_at.is_empty());
}

#[test]
fn failed_visit_is_abandoned() {
    let mut model = model(10, 0);
    let (last, _) = model.visit(target(12, 7, 0));
    assert_eq!(last, VisitStep::Abandon);
    assert!(model.ran_at.is_empty());
    let visit = FrameVisit { target: target(11, 2, 0), home: Focus { pid: 10, frame: 3 } };
    let step = with_thread_frame(&visit, VisitStep::LeaveThread { number: 1 }, VisitReply::Failed);
    assert_eq!(step, VisitStep::Abandon);
    let stray = with_thread_frame(&visit, VisitStep::Run { home: Some(1) }, VisitReply::FrameFocused);
    assert_eq!(stray, VisitStep::Run { home: Some(1) });
}

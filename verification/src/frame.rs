//! Stack frames: their ids, and the pages of a stack that a client asks for.

use crate::numbers;
use crate::text;
use crate::thread;
use crate::thread::ThreadSnapshot;
use vstd::prelude::*;
use vstd::string::*;

verus! {

/// A place in the source code.
#[derive(Debug, PartialEq, Eq)]
pub struct Place {
    /// The path of the file.
    pub file: String,
    pub line_number: u64,
    /// The column, or zero where it is not known.
    pub column_number: u64,
}

/// What a [`Place`] holds.
pub struct PlaceView {
    pub file: Seq<char>,
    pub line_number: u64,
    pub column_number: u64,
}

impl View for Place {
    type V = PlaceView;

    open spec fn view(&self) -> PlaceView {
        PlaceView {
            file: self.file@,
            line_number: self.line_number,
            column_number: self.column_number,
        }
    }
}

/// The view of an optional place.
pub open spec fn place_view(place: Option<Place>) -> Option<PlaceView> {
    match place {
        Some(place) => Some(place@),
        None => None,
    }
}

/// A source file as a client is told of it.
#[derive(Debug, PartialEq, Eq)]
pub struct Source {
    pub name: Option<String>,
    pub path: Option<String>,
}

/// What a [`Source`] holds.
pub struct SourceView {
    pub name: Option<Seq<char>>,
    pub path: Option<Seq<char>>,
}

impl View for Source {
    type V = SourceView;

    open spec fn view(&self) -> SourceView {
        SourceView { name: text::text_view(self.name), path: text::text_view(self.path) }
    }
}

/// The view of an optional source.
pub open spec fn source_view(source: Option<Source>) -> Option<SourceView> {
    match source {
        Some(source) => Some(source@),
        None => None,
    }
}

/// The file at `path`, called by its last component.
pub open spec fn source_of(path: Seq<char>) -> SourceView {
    SourceView { name: text::file_name(path), path: Some(path) }
}

/// Describes the file at `path`.
pub fn make_source(path: &str) -> (r: Source)
    ensures
        r@ == source_of(path@),
{
    Source { name: text::path_file_name(path), path: Some(path.to_owned()) }
}

/// The id of a frame: the thread in the upper half, the position on the stack in the lower.
pub open spec fn frame_id(thread_pid: i32, index: u64) -> u64 {
    (numbers::sign_extended(thread_pid) << 32) | index
}

/// The thread and the position that a frame id names.
pub open spec fn decoded(frame_id: u64) -> (i32, u32) {
    (
        numbers::as_signed((frame_id / 0x1_0000_0000) as u32),
        numbers::low_word(frame_id),
    )
}

/// Makes the id of a frame.
pub fn encode_frame_id(thread_pid: i32, index: u64) -> (r: u64)
    ensures
        r == frame_id(thread_pid, index),
{
    (numbers::extend_u64(thread_pid) << 32) | index
}

/// Finds the thread and the position that a frame id names.
pub fn decode_frame_id(frame_id: u64) -> (r: (i32, u32))
    ensures
        r == decoded(frame_id),
{
    assert(frame_id >> 32 == frame_id / 0x1_0000_0000) by (bit_vector);
    assert((frame_id & 0xFFFF_FFFF) as u32 == frame_id % 0x1_0000_0000) by (bit_vector);
    let upper: u64 = frame_id >> 32;
    assert(upper % 0x1_0000_0000 == upper);
    let thread_raw: i32 = numbers::truncate_i32(upper);
    let frame_index: u32 = (frame_id & 0xFFFF_FFFF) as u32;
    (thread_raw, frame_index)
}

proof fn lemma_frame_id_value(thread_pid: i32, index: u32)
    ensures
        frame_id(thread_pid, index as u64) == numbers::as_unsigned(thread_pid) * 0x1_0000_0000
            + index,
{
    let wide = numbers::sign_extended(thread_pid);
    let low = numbers::as_unsigned(thread_pid);
    let index = index as u64;
    assert(low == wide % 0x1_0000_0000);
    assert((wide << 32) | index == (wide % 0x1_0000_0000) * 0x1_0000_0000 + index) by (bit_vector)
        requires
            index < 0x1_0000_0000,
    ;
}

/// A frame id leads back to the thread and the position that it was made of.
pub proof fn law_frame_id_round_trip(thread_pid: i32, index: u32)
    ensures
        decoded(frame_id(thread_pid, index as u64)) == (thread_pid, index),
{
    lemma_frame_id_value(thread_pid, index);
    let id = frame_id(thread_pid, index as u64);
    assert(id / 0x1_0000_0000 == numbers::as_unsigned(thread_pid));
    assert(id % 0x1_0000_0000 == index);
}

/// Every number is the id of the frame that it is decoded to.
pub proof fn law_frame_id_unique(id: u64)
    ensures
        frame_id(decoded(id).0, decoded(id).1 as u64) == id,
{
    lemma_frame_id_value(decoded(id).0, decoded(id).1);
}

/// A frame of a backtrace.
#[derive(Debug, PartialEq, Eq)]
pub struct BacktraceFrame {
    pub func_name: Option<String>,
    pub place: Option<Place>,
}

/// What a [`BacktraceFrame`] holds.
pub struct BacktraceFrameView {
    pub func_name: Option<Seq<char>>,
    pub place: Option<PlaceView>,
}

impl View for BacktraceFrame {
    type V = BacktraceFrameView;

    open spec fn view(&self) -> BacktraceFrameView {
        BacktraceFrameView {
            func_name: text::text_view(self.func_name),
            place: place_view(self.place),
        }
    }
}

pub open spec fn backtrace_view(frames: Seq<BacktraceFrame>) -> Seq<BacktraceFrameView> {
    Seq::new(frames.len(), |i: int| frames[i]@)
}

/// A stack frame as a client is sent it.
#[derive(Debug, PartialEq, Eq)]
pub struct StackFrame {
    pub id: u64,
    pub name: String,
    pub line: u32,
    pub column: u32,
    pub source: Option<Source>,
}

/// What a [`StackFrame`] holds.
pub struct StackFrameView {
    pub id: u64,
    pub name: Seq<char>,
    pub line: u32,
    pub column: u32,
    pub source: Option<SourceView>,
}

impl View for StackFrame {
    type V = StackFrameView;

    open spec fn view(&self) -> StackFrameView {
        StackFrameView {
            id: self.id,
            name: self.name@,
            line: self.line,
            column: self.column,
            source: source_view(self.source),
        }
    }
}

pub open spec fn frames_view(frames: Seq<StackFrame>) -> Seq<StackFrameView> {
    Seq::new(frames.len(), |i: int| frames[i]@)
}

/// The stack frame at `index`. An unknown column is shown as the first one, an unknown place as
/// line and column zero.
pub open spec fn stack_frame_of(
    thread_pid: i32,
    index: nat,
    frame: BacktraceFrameView,
) -> StackFrameView {
    StackFrameView {
        id: frame_id(thread_pid, index as u64),
        name: match frame.func_name {
            Some(name) => name,
            None => "<unknown>"@,
        },
        line: match frame.place {
            Some(place) => numbers::low_word(place.line_number),
            None => 0,
        },
        column: match frame.place {
            Some(place) => if place.column_number == 0 {
                1
            } else {
                numbers::low_word(place.column_number)
            },
            None => 0,
        },
        source: match frame.place {
            Some(place) => Some(source_of(place.file)),
            None => None,
        },
    }
}

/// Shows one frame of a backtrace.
pub fn make_stack_frame(thread_pid: i32, index: usize, frame: &BacktraceFrame) -> (r: StackFrame)
    ensures
        r@ == stack_frame_of(thread_pid, index as nat, frame@),
{
    let name = match &frame.func_name {
        Some(name) => name.clone(),
        None => "<unknown>".to_owned(),
    };
    let id: u64 = encode_frame_id(thread_pid, index as u64);
    match &frame.place {
        Some(place) => {
            let column: u32 = if place.column_number == 0 {
                1
            } else {
                numbers::truncate_u32(place.column_number)
            };
            StackFrame {
                id,
                name,
                line: numbers::truncate_u32(place.line_number),
                column,
                source: Some(make_source(place.file.as_str())),
            }
        },
        None => StackFrame { id, name, line: 0, column: 0, source: None },
    }
}

/// Which part of the stack of which thread a client asks for.
#[derive(Clone, Copy, Debug, PartialEq, Eq)]
pub struct StackRequest {
    pub thread_pid: i32,
    /// The first frame to show.
    pub start: Option<u32>,
    /// How many frames to show.
    pub levels: Option<u32>,
}

impl StackRequest {
    /// The first frame to show.
    pub open spec fn first(self) -> nat {
        match self.start {
            Some(start) => start as nat,
            None => 0,
        }
    }

    /// How many frames to show at most, of `total`.
    pub open spec fn limit(self, total: nat) -> nat {
        match self.levels {
            Some(levels) => levels as nat,
            None => numbers::low_word(total as u64) as nat,
        }
    }

    /// How many frames there are to show, of `total`.
    pub open spec fn count(self, total: nat) -> nat {
        if self.first() >= total {
            0
        } else if self.limit(total) <= total - self.first() {
            self.limit(total)
        } else {
            (total - self.first()) as nat
        }
    }

    /// The frames to show.
    pub open spec fn page(self, backtrace: Seq<BacktraceFrameView>) -> Seq<StackFrameView> {
        Seq::new(
            self.count(backtrace.len()),
            |i: int|
                stack_frame_of(
                    self.thread_pid,
                    (self.first() + i) as nat,
                    backtrace[self.first() + i],
                ),
        )
    }
}

/// Reads a request for a stack: the thread id, and the page.
pub fn stack_trace(thread_id: u64, start_frame: Option<u64>, levels: Option<u64>) -> (r:
    StackRequest)
    ensures
        r.thread_pid == numbers::as_signed(numbers::low_word(thread_id)),
        r.start == match start_frame {
            Some(start) => Some(numbers::low_word(start)),
            None => None,
        },
        r.levels == match levels {
            Some(levels) => Some(numbers::low_word(levels)),
            None => None,
        },
{
    let start = match start_frame {
        Some(start) => Some(numbers::truncate_u32(start)),
        None => None,
    };
    let levels = match levels {
        Some(levels) => Some(numbers::truncate_u32(levels)),
        None => None,
    };
    StackRequest { thread_pid: numbers::truncate_i32(thread_id), start, levels }
}

/// Shows the frames of a backtrace that were asked for.
pub fn page_frames(request: &StackRequest, backtrace: &Vec<BacktraceFrame>) -> (r: Vec<StackFrame>)
    ensures
        frames_view(r@) == request.page(backtrace_view(backtrace@)),
{
    let total: usize = backtrace.len();
    let start: usize = match request.start {
        Some(start) => start as usize,
        None => 0,
    };
    let limit: usize = match request.levels {
        Some(levels) => levels as usize,
        None => numbers::truncate_u32(total as u64) as usize,
    };
    let count: usize = if start >= total {
        0
    } else if limit <= total - start {
        limit
    } else {
        total - start
    };
    let mut frames: Vec<StackFrame> = Vec::new();
    for i in 0..count
        invariant
            total == backtrace@.len(),
            count == request.count(total as nat),
            start == request.first(),
            count > 0 ==> start + count <= total,
            frames@.len() == i,
            forall|j: int|
                0 <= j < i ==> (#[trigger] frames@[j])@ == request.page(
                    backtrace_view(backtrace@),
                )[j],
    {
        frames.push(make_stack_frame(request.thread_pid, start + i, &backtrace[start + i]));
    }
    assert(frames_view(frames@) =~= request.page(backtrace_view(backtrace@)));
    frames
}

/// The answer to a request for a stack.
#[derive(Debug, PartialEq, Eq)]
pub struct StackTrace {
    pub stack_frames: Vec<StackFrame>,
    /// How many frames the stack has in all.
    pub total_frames: u64,
}

/// What a [`StackTrace`] holds.
pub struct StackTraceView {
    pub stack_frames: Seq<StackFrameView>,
    pub total_frames: u64,
}

impl View for StackTrace {
    type V = StackTraceView;

    open spec fn view(&self) -> StackTraceView {
        StackTraceView {
            stack_frames: frames_view(self.stack_frames@),
            total_frames: self.total_frames,
        }
    }
}

/// What to do next for a request for a stack.
#[derive(Debug, PartialEq, Eq)]
pub enum StackStep {
    /// List the threads.
    ReadThreads,
    /// Put the thread with this number into focus.
    FocusThread(u32),
    /// Read the backtrace of the thread with this process id.
    ReadBacktrace(i32),
    /// Send the answer.
    Reply(StackTrace),
    /// Report the failure of the debugger.
    Abandon,
}

/// What a [`StackStep`] holds.
pub enum StackStepView {
    ReadThreads,
    FocusThread(u32),
    ReadBacktrace(i32),
    Reply(StackTraceView),
    Abandon,
}

impl View for StackStep {
    type V = StackStepView;

    open spec fn view(&self) -> StackStepView {
        match self {
            StackStep::ReadThreads => StackStepView::ReadThreads,
            StackStep::FocusThread(number) => StackStepView::FocusThread(*number),
            StackStep::ReadBacktrace(pid) => StackStepView::ReadBacktrace(*pid),
            StackStep::Reply(trace) => StackStepView::Reply(trace@),
            StackStep::Abandon => StackStepView::Abandon,
        }
    }
}

/// How the debugger answered a step.
#[derive(Debug, PartialEq, Eq)]
pub enum StackReply {
    Threads(Vec<ThreadSnapshot>),
    Focused,
    Backtrace(Vec<BacktraceFrame>),
    Failed,
}

/// What a [`StackReply`] holds.
pub enum StackReplyView {
    Threads(Seq<ThreadSnapshot>),
    Focused,
    Backtrace(Seq<BacktraceFrameView>),
    Failed,
}

impl View for StackReply {
    type V = StackReplyView;

    open spec fn view(&self) -> StackReplyView {
        match self {
            StackReply::Threads(threads) => StackReplyView::Threads(threads@),
            StackReply::Focused => StackReplyView::Focused,
            StackReply::Backtrace(frames) => StackReplyView::Backtrace(backtrace_view(frames@)),
            StackReply::Failed => StackReplyView::Failed,
        }
    }
}

impl StackRequest {
    /// The answer, given the whole backtrace.
    pub open spec fn answer(self, backtrace: Seq<BacktraceFrameView>) -> StackTraceView {
        StackTraceView {
            stack_frames: self.page(backtrace),
            total_frames: backtrace.len() as u64,
        }
    }

    /// What follows a step: the thread is put into focus if it is listed, and its backtrace is
    /// read either way. A reply that answers no pending step changes nothing.
    pub open spec fn following(self, step: StackStepView, reply: StackReplyView) -> StackStepView {
        match (step, reply) {
            (StackStepView::ReadThreads, StackReplyView::Threads(threads)) => match thread::number_of(
                threads,
                self.thread_pid,
            ) {
                Some(number) => StackStepView::FocusThread(number),
                None => StackStepView::ReadBacktrace(self.thread_pid),
            },
            (StackStepView::FocusThread(_), StackReplyView::Focused) => {
                StackStepView::ReadBacktrace(self.thread_pid)
            },
            (StackStepView::ReadBacktrace(_), StackReplyView::Backtrace(backtrace)) => {
                StackStepView::Reply(self.answer(backtrace))
            },
            (StackStepView::Reply(_), _) => step,
            (_, StackReplyView::Failed) => StackStepView::Abandon,
            _ => step,
        }
    }
}

/// Decides what to do next for a request for a stack. The first step is to list the threads.
pub fn collect_stack_frames(request: &StackRequest, step: StackStep, reply: StackReply) -> (r:
    StackStep)
    ensures
        r@ == request.following(step@, reply@),
{
    match (step, reply) {
        (StackStep::ReadThreads, StackReply::Threads(threads)) => match thread::find_thread(
            &threads,
            request.thread_pid,
        ) {
            Some(number) => StackStep::FocusThread(number),
            None => StackStep::ReadBacktrace(request.thread_pid),
        },
        (StackStep::FocusThread(_), StackReply::Focused) => {
            StackStep::ReadBacktrace(request.thread_pid)
        },
        (StackStep::ReadBacktrace(_), StackReply::Backtrace(backtrace)) => {
            let stack_frames = page_frames(request, &backtrace);
            let total_frames: u64 = backtrace.len() as u64;
            StackStep::Reply(StackTrace { stack_frames, total_frames })
        },
        (StackStep::Reply(trace), _) => StackStep::Reply(trace),
        (_, StackReply::Failed) => StackStep::Abandon,
        (step, _) => step,
    }
}

/// Whatever page is asked for, the answer gives the height of the whole stack, and shows a
/// stretch of the same frames that are shown without a page.
pub proof fn law_page_is_stretch(request: StackRequest, backtrace: Seq<BacktraceFrameView>)
    requires
        backtrace.len() <= u32::MAX,
    ensures
        ({
            let whole = StackRequest { start: None, levels: None, ..request }.answer(backtrace);
            let answer = request.answer(backtrace);
            let first = request.first();
            &&& whole.stack_frames.len() == backtrace.len()
            &&& answer.total_frames == whole.total_frames
            &&& answer.total_frames == backtrace.len()
            &&& answer.stack_frames.len() > 0 ==> answer.stack_frames == whole.stack_frames.subrange(
                first as int,
                (first + answer.stack_frames.len()) as int,
            )
        }),
{
    let whole = StackRequest { start: None, levels: None, ..request }.answer(backtrace);
    let answer = request.answer(backtrace);
    let first = request.first();
    if answer.stack_frames.len() > 0 {
        assert(answer.stack_frames =~= whole.stack_frames.subrange(
            first as int,
            (first + answer.stack_frames.len()) as int,
        ));
    }
}

/// A client that asks for one page after the other is shown what one larger page shows.
pub proof fn law_pages_join(
    thread_pid: i32,
    backtrace: Seq<BacktraceFrameView>,
    start: u32,
    near: u32,
    far: u32,
)
    requires
        start + near <= u32::MAX,
        near + far <= u32::MAX,
    ensures
        ({
            let first = StackRequest { thread_pid, start: Some(start), levels: Some(near) };
            let second = StackRequest {
                thread_pid,
                start: Some((start + near) as u32),
                levels: Some(far),
            };
            let both = StackRequest {
                thread_pid,
                start: Some(start),
                levels: Some((near + far) as u32),
            };
            first.page(backtrace) + second.page(backtrace) == both.page(backtrace)
        }),
{
    let first = StackRequest { thread_pid, start: Some(start), levels: Some(near) };
    let second = StackRequest {
        thread_pid,
        start: Some((start + near) as u32),
        levels: Some(far),
    };
    let both = StackRequest { thread_pid, start: Some(start), levels: Some((near + far) as u32) };
    assert(first.page(backtrace) + second.page(backtrace) =~= both.page(backtrace));
}

/// The id of a shown frame leads back to the thread and to the frame's position on the stack.
pub proof fn law_shown_ids_decode(
    request: StackRequest,
    backtrace: Seq<BacktraceFrameView>,
    i: int,
)
    requires
        backtrace.len() <= 0x1_0000_0000,
        0 <= i < request.page(backtrace).len(),
    ensures
        decoded(request.page(backtrace)[i].id) == (request.thread_pid, (request.first() + i) as u32),
{
    law_frame_id_round_trip(request.thread_pid, (request.first() + i) as u32);
}

/// A request is answered with the stack of its thread once the debugger has listed the threads
/// and read the backtrace; on the way the thread is put into focus exactly if it is listed.
pub proof fn law_stack_request_is_answered(
    request: StackRequest,
    threads: Seq<ThreadSnapshot>,
    backtrace: Seq<BacktraceFrameView>,
)
    ensures
        ({
            let listed = request.following(
                StackStepView::ReadThreads,
                StackReplyView::Threads(threads),
            );
            let ready = if listed is FocusThread {
                request.following(listed, StackReplyView::Focused)
            } else {
                listed
            };
            &&& listed is FocusThread <==> thread::number_of(threads, request.thread_pid) is Some
            &&& listed is FocusThread ==> listed == StackStepView::FocusThread(
                thread::number_of(threads, request.thread_pid)->0,
            )
            &&& ready == StackStepView::ReadBacktrace(request.thread_pid)
            &&& request.following(ready, StackReplyView::Backtrace(backtrace))
                == StackStepView::Reply(request.answer(backtrace))
        }),
{
}

/// No step of a request is retried after the debugger failed.
pub proof fn law_failed_stack_request_is_abandoned(request: StackRequest, step: StackStepView)
    requires
        !(step is Reply),
    ensures
        request.following(step, StackReplyView::Failed) == StackStepView::Abandon,
        forall|reply: StackReplyView| #[trigger]
            request.following(StackStepView::Abandon, reply) == StackStepView::Abandon,
{
}

/// The upper half of a frame id is the thread, the lower half the position on the stack.
pub proof fn law_frame_id_halves(thread_pid: i32, index: u32)
    ensures
        frame_id(thread_pid, index as u64) / 0x1_0000_0000 == numbers::as_unsigned(thread_pid),
        frame_id(thread_pid, index as u64) % 0x1_0000_0000 == index,
{
    lemma_frame_id_value(thread_pid, index);
}

/// Each shown frame describes the frame of the backtrace at its own position and no other: its
/// function, or a stand-in where that is not known, and its own line, column and file, or none of
/// these where its place is not known.
pub proof fn law_shown_frames_describe_their_own(
    request: StackRequest,
    backtrace: Seq<BacktraceFrameView>,
    i: int,
)
    requires
        0 <= i < request.page(backtrace).len(),
    ensures
        ({
            let shown = request.page(backtrace)[i];
            let position = match request.start {
                Some(start) => start + i,
                None => i,
            };
            let frame = backtrace[position];
            &&& 0 <= position < backtrace.len()
            &&& shown.id == frame_id(request.thread_pid, position as u64)
            &&& match frame.func_name {
                Some(name) => shown.name == name,
                None => shown.name == "<unknown>"@,
            }
            &&& match frame.place {
                Some(place) => {
                    &&& shown.line == place.line_number % 0x1_0000_0000
                    &&& place.column_number == 0 ==> shown.column == 1
                    &&& place.column_number != 0 ==> shown.column == place.column_number
                        % 0x1_0000_0000
                    &&& shown.source is Some
                    &&& shown.source->0.path == Some(place.file)
                    &&& shown.source->0.name == text::file_name(place.file)
                },
                None => shown.line == 0 && shown.column == 0 && shown.source is None,
            }
        }),
{
}

/// What is shown of a frame does not depend on any other frame of the stack.
pub proof fn law_shown_frames_are_independent(
    request: StackRequest,
    backtrace: Seq<BacktraceFrameView>,
    other: Seq<BacktraceFrameView>,
    i: int,
)
    requires
        backtrace.len() == other.len(),
        0 <= i < request.page(backtrace).len(),
        backtrace[request.first() + i] == other[request.first() + i],
    ensures
        request.page(other).len() == request.page(backtrace).len(),
        request.page(other)[i] == request.page(backtrace)[i],
{
}

/// A page holds as many frames as were asked for, or all from its start on where there are not so
/// many or no number was given. A start behind the stack gives an empty page.
pub proof fn law_page_extent(request: StackRequest, backtrace: Seq<BacktraceFrameView>)
    requires
        backtrace.len() <= u32::MAX,
    ensures
        ({
            let start = match request.start {
                Some(start) => start as int,
                None => 0,
            };
            let rest = backtrace.len() - start;
            let len = request.page(backtrace).len();
            &&& start >= backtrace.len() ==> len == 0
            &&& start < backtrace.len() ==> match request.levels {
                None => len == rest,
                Some(levels) => {
                    &&& levels <= rest ==> len == levels
                    &&& levels > rest ==> len == rest
                },
            }
        }),
{
}

/// The answer to a request tells the height of the stack, and shows the page that was asked for.
pub proof fn law_answer_tells_height(request: StackRequest, backtrace: Seq<BacktraceFrameView>)
    requires
        backtrace.len() <= u64::MAX,
    ensures
        request.answer(backtrace).total_frames == backtrace.len(),
        request.answer(backtrace).stack_frames == request.page(backtrace),
{
}

/// A file is described by its whole path and by the last component of it.
pub proof fn law_source_keeps_path(path: Seq<char>)
    ensures
        source_of(path).path == Some(path),
        source_of(path).name == text::file_name(path),
{
}

/// An answered request stays answered, and a reply of the wrong kind changes nothing.
pub proof fn law_stray_stack_replies_change_nothing(
    request: StackRequest,
    step: StackStepView,
    reply: StackReplyView,
)
    requires
        step is ReadThreads ==> reply is Focused || reply is Backtrace,
        step is FocusThread ==> reply is Threads || reply is Backtrace,
        step is ReadBacktrace ==> reply is Threads || reply is Focused,
    ensures
        request.following(step, reply) == step,
{
}

/// The view of a frame of a backtrace tells its function and its place, which is seen with all its
/// fields; that of a list tells all frames in order.
pub proof fn law_backtraces_are_seen_whole(frames: Seq<BacktraceFrame>, i: int)
    requires
        0 <= i < frames.len(),
    ensures
        backtrace_view(frames).len() == frames.len(),
        backtrace_view(frames)[i].func_name == text::text_view(frames[i].func_name),
        backtrace_view(frames)[i].place is Some <==> frames[i].place is Some,
        backtrace_view(frames)[i].place == place_view(frames[i].place),
        match frames[i].place {
            Some(place) => {
                &&& place_view(frames[i].place)->0.file == place.file@
                &&& place_view(frames[i].place)->0.line_number == place.line_number
                &&& place_view(frames[i].place)->0.column_number == place.column_number
            },
            None => true,
        },
{
}

/// The view of an answer tells the height and all shown frames in order, each with all its fields.
pub proof fn law_stack_traces_are_seen_whole(trace: StackTrace, i: int)
    requires
        0 <= i < trace.stack_frames@.len(),
    ensures
        ({
            let frame = trace.stack_frames@[i];
            let seen = trace@.stack_frames[i];
            &&& trace@.total_frames == trace.total_frames
            &&& trace@.stack_frames.len() == trace.stack_frames@.len()
            &&& trace@.stack_frames == frames_view(trace.stack_frames@)
            &&& seen.id == frame.id
            &&& seen.name == frame.name@
            &&& seen.line == frame.line
            &&& seen.column == frame.column
            &&& seen.source is Some <==> frame.source is Some
            &&& seen.source == source_view(frame.source)
            &&& match frame.source {
                Some(source) => {
                    &&& source_view(frame.source)->0.name == text::text_view(source.name)
                    &&& source_view(frame.source)->0.path == text::text_view(source.path)
                },
                None => true,
            }
        }),
{
}

/// The views of a step and of a reply tell which it is and all that it carries.
pub proof fn law_stack_steps_are_seen_whole(step: StackStep, reply: StackReply)
    ensures
        match step@ {
            StackStepView::ReadThreads => step is ReadThreads,
            StackStepView::FocusThread(number) => step == StackStep::FocusThread(number),
            StackStepView::ReadBacktrace(pid) => step == StackStep::ReadBacktrace(pid),
            StackStepView::Reply(trace) => step is Reply && trace == step->Reply_0@,
            StackStepView::Abandon => step is Abandon,
        },
        match reply@ {
            StackReplyView::Threads(threads) => reply is Threads && threads == reply->Threads_0@,
            StackReplyView::Focused => reply is Focused,
            StackReplyView::Backtrace(frames) => reply is Backtrace && frames == backtrace_view(
                reply->Backtrace_0@,
            ),
            StackReplyView::Failed => reply is Failed,
        },
{
}

} // verus!

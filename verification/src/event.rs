//! What happens to the debuggee, and how the client hears of it.

use crate::error;
use crate::error::{DapError, DapErrorView};
use crate::numbers;
use crate::session::{SessionState, SessionView};
use crate::text;
use nix::sys::signal::Signal;
use vstd::prelude::*;
use vstd::string::*;

verus! {

/// A signal of `nix`, opaque here.
#[verifier::external_type_specification]
#[verifier::external_body]
pub struct ExSignal(nix::sys::signal::Signal);

/// What `nix::sys::signal::Signal::as_str` gives: the name of the signal.
pub uninterp spec fn signal_name(signal: nix::sys::signal::Signal) -> Seq<char>;

/// `nix::sys::signal::Signal::as_str`. Claims that the name depends on the signal alone; which
/// name each signal has is left unsaid, as the type is opaque.
pub assume_specification[ nix::sys::signal::Signal::as_str ](
    signal: nix::sys::signal::Signal,
) -> (r: &'static str)
    ensures
        r@ == signal_name(signal),
;

/// What `String::from_utf8_lossy` gives for some bytes.
pub uninterp spec fn lossy_text(bytes: Seq<u8>) -> Seq<char>;

/// `String::from_utf8_lossy`. Claims that the text depends on the bytes alone, and that valid
/// UTF-8 is decoded as such; how other bytes are replaced is left unsaid.
#[verifier::external_body]
fn decode_lossy(bytes: &[u8]) -> (r: String)
    ensures
        r@ == lossy_text(bytes@),
        vstd::utf8::valid_utf8(bytes@) ==> r@ == vstd::utf8::decode_utf8(bytes@),
{
    String::from_utf8_lossy(bytes).to_string()
}

/// Why the debuggee stopped.
#[derive(Clone, Copy, Debug, PartialEq, Eq)]
pub enum StopEvent {
    /// It hit the breakpoint with this number.
    Breakpoint { id: u32 },
    /// A step is over.
    Step,
    /// It got a signal.
    Signal { signal: Signal },
    /// A watched value changed.
    Watchpoint,
}

/// What the client is to hear of.
#[derive(Debug, PartialEq, Eq)]
pub enum DapEvent {
    Stopped(StopEvent),
    Output { category: String, message: String },
    Exited { code: i32 },
}

/// What a [`DapEvent`] holds.
pub enum DapEventView {
    Stopped(StopEvent),
    Output { category: Seq<char>, message: Seq<char> },
    Exited { code: i32 },
}

impl View for DapEvent {
    type V = DapEventView;

    open spec fn view(&self) -> DapEventView {
        match self {
            DapEvent::Stopped(reason) => DapEventView::Stopped(*reason),
            DapEvent::Output { category, message } => DapEventView::Output {
                category: category@,
                message: message@,
            },
            DapEvent::Exited { code } => DapEventView::Exited { code: *code },
        }
    }
}

impl DapEvent {
    /// The debuggee hit a breakpoint.
    pub fn on_breakpoint(num: u32) -> (r: Self)
        ensures
            r@ == DapEventView::Stopped(StopEvent::Breakpoint { id: num }),
    {
        DapEvent::Stopped(StopEvent::Breakpoint { id: num })
    }

    /// A watched value changed.
    pub fn on_watchpoint() -> (r: Self)
        ensures
            r@ == DapEventView::Stopped(StopEvent::Watchpoint),
    {
        DapEvent::Stopped(StopEvent::Watchpoint)
    }

    /// A step is over.
    pub fn on_step() -> (r: Self)
        ensures
            r@ == DapEventView::Stopped(StopEvent::Step),
    {
        DapEvent::Stopped(StopEvent::Step)
    }

    /// A step over an await point is over.
    pub fn on_async_step() -> (r: Self)
        ensures
            r@ == DapEventView::Stopped(StopEvent::Step),
    {
        DapEvent::Stopped(StopEvent::Step)
    }

    /// The debuggee got a signal.
    pub fn on_signal(signal: Signal) -> (r: Self)
        ensures
            r@ == DapEventView::Stopped(StopEvent::Signal { signal }),
    {
        DapEvent::Stopped(StopEvent::Signal { signal })
    }

    /// The debuggee ended.
    pub fn on_exit(code: i32) -> (r: Self)
        ensures
            r@ == (DapEventView::Exited { code }),
    {
        DapEvent::Exited { code }
    }
}

/// The kinds of stops that the protocol knows.
#[derive(Clone, Copy, Debug, PartialEq, Eq)]
pub enum StoppedReason {
    Breakpoint,
    Step,
    Exception,
    DataBreakpoint,
}

/// A stop as a client is told of it.
#[derive(Debug, PartialEq, Eq)]
pub struct StoppedEvent {
    pub reason: StoppedReason,
    pub text: Option<String>,
    pub thread_id: Option<u64>,
    pub hit_breakpoint_ids: Option<Vec<u64>>,
    pub all_threads_stopped: Option<bool>,
}

/// What a [`StoppedEvent`] holds.
pub struct StoppedEventView {
    pub reason: StoppedReason,
    pub text: Option<Seq<char>>,
    pub thread_id: Option<u64>,
    pub hit_breakpoint_ids: Option<Seq<u64>>,
    pub all_threads_stopped: Option<bool>,
}

impl View for StoppedEvent {
    type V = StoppedEventView;

    open spec fn view(&self) -> StoppedEventView {
        StoppedEventView {
            reason: self.reason,
            text: text::text_view(self.text),
            thread_id: self.thread_id,
            hit_breakpoint_ids: match self.hit_breakpoint_ids {
                Some(ids) => Some(ids@),
                None => None,
            },
            all_threads_stopped: self.all_threads_stopped,
        }
    }
}

/// How a stop is named in the protocol.
pub open spec fn reason_of(stop: StopEvent) -> StoppedReason {
    match stop {
        StopEvent::Breakpoint { .. } => StoppedReason::Breakpoint,
        StopEvent::Step => StoppedReason::Step,
        StopEvent::Signal { .. } => StoppedReason::Exception,
        StopEvent::Watchpoint => StoppedReason::DataBreakpoint,
    }
}

/// How a stop is described, given the name of the signal if there was one.
pub open spec fn text_of(stop: StopEvent, signal: Seq<char>) -> Option<Seq<char>> {
    match stop {
        StopEvent::Breakpoint { id } => Some("Hit breakpoint #"@ + text::decimal(id as int)),
        StopEvent::Signal { .. } => Some("Signal "@ + signal),
        StopEvent::Watchpoint => Some("Watchpoint triggered"@),
        StopEvent::Step => None,
    }
}

/// The name of the signal that stopped the debuggee, if there was one.
pub open spec fn stop_signal_name(stop: StopEvent) -> Seq<char> {
    match stop {
        StopEvent::Signal { signal } => signal_name(signal),
        _ => Seq::empty(),
    }
}

/// What a client is told of a stop in the thread with process id `pid`.
pub open spec fn stopped_event_of(stop: StopEvent, signal: Seq<char>, pid: i32) -> StoppedEventView {
    StoppedEventView {
        reason: reason_of(stop),
        text: text_of(stop, signal),
        thread_id: Some(numbers::sign_extended(pid)),
        hit_breakpoint_ids: match stop {
            StopEvent::Breakpoint { id } => Some(seq![id as u64]),
            _ => None,
        },
        all_threads_stopped: Some(true),
    }
}

/// Describes a stop to a client, given the name of the signal if there was one.
pub fn describe_stop(stop: StopEvent, signal: &str, pid: i32) -> (r: StoppedEvent)
    ensures
        r@ == stopped_event_of(stop, signal@, pid),
{
    let reason = match stop {
        StopEvent::Breakpoint { .. } => StoppedReason::Breakpoint,
        StopEvent::Step => StoppedReason::Step,
        StopEvent::Signal { .. } => StoppedReason::Exception,
        StopEvent::Watchpoint => StoppedReason::DataBreakpoint,
    };
    let text = match stop {
        StopEvent::Breakpoint { id } => {
            let number = text::decimal_unsigned(id as u64);
            Some("Hit breakpoint #".to_owned().concat(number.as_str()))
        },
        StopEvent::Signal { .. } => Some("Signal ".to_owned().concat(signal)),
        StopEvent::Watchpoint => Some("Watchpoint triggered".to_owned()),
        StopEvent::Step => None,
    };
    let hit_breakpoint_ids = match stop {
        StopEvent::Breakpoint { id } => {
            let mut ids: Vec<u64> = Vec::new();
            ids.push(id as u64);
            assert(ids@ =~= seq![id as u64]);
            Some(ids)
        },
        _ => None,
    };
    StoppedEvent {
        reason,
        text,
        thread_id: Some(numbers::extend_u64(pid)),
        hit_breakpoint_ids,
        all_threads_stopped: Some(true),
    }
}

/// Describes a stop to a client.
pub fn stopped_event(stop: StopEvent, pid: i32) -> (r: StoppedEvent)
    ensures
        r@ == stopped_event_of(stop, stop_signal_name(stop), pid),
{
    match stop {
        StopEvent::Signal { signal } => describe_stop(stop, signal.as_str(), pid),
        _ => describe_stop(stop, "", pid),
    }
}

/// What to do next to pass an event on.
#[derive(Debug, PartialEq, Eq)]
pub enum EventStep {
    /// Ask the debugger for the thread in focus.
    ReadFocus(StopEvent),
    SendStopped(StoppedEvent),
    SendOutput { category: String, message: String },
    SendExited { exit_code: u64 },
    SendTerminated,
    /// The event was passed on.
    Done,
    /// The event could not be passed on.
    Fail(DapError),
}

/// What an [`EventStep`] holds.
pub enum EventStepView {
    ReadFocus(StopEvent),
    SendStopped(StoppedEventView),
    SendOutput { category: Seq<char>, message: Seq<char> },
    SendExited { exit_code: u64 },
    SendTerminated,
    Done,
    Fail(DapErrorView),
}

impl View for EventStep {
    type V = EventStepView;

    open spec fn view(&self) -> EventStepView {
        match self {
            EventStep::ReadFocus(stop) => EventStepView::ReadFocus(*stop),
            EventStep::SendStopped(event) => EventStepView::SendStopped(event@),
            EventStep::SendOutput { category, message } => EventStepView::SendOutput {
                category: category@,
                message: message@,
            },
            EventStep::SendExited { exit_code } => EventStepView::SendExited {
                exit_code: *exit_code,
            },
            EventStep::SendTerminated => EventStepView::SendTerminated,
            EventStep::Done => EventStepView::Done,
            EventStep::Fail(err) => EventStepView::Fail(err@),
        }
    }
}

/// How a step went.
#[derive(Debug, PartialEq, Eq)]
pub enum EventReply {
    /// The process id of the thread in focus.
    Focus(i32),
    /// The debugger failed.
    Failed(DapError),
    Sent,
    /// The client could not be told, for this reason.
    NotSent(String),
}

/// What an [`EventReply`] holds.
pub enum EventReplyView {
    Focus(i32),
    Failed(DapErrorView),
    Sent,
    NotSent(Seq<char>),
}

impl View for EventReply {
    type V = EventReplyView;

    open spec fn view(&self) -> EventReplyView {
        match self {
            EventReply::Focus(pid) => EventReplyView::Focus(*pid),
            EventReply::Failed(err) => EventReplyView::Failed(err@),
            EventReply::Sent => EventReplyView::Sent,
            EventReply::NotSent(reason) => EventReplyView::NotSent(reason@),
        }
    }
}

/// The first step for an event.
pub open spec fn first_event_step(event: DapEventView) -> EventStepView {
    match event {
        DapEventView::Stopped(stop) => EventStepView::ReadFocus(stop),
        DapEventView::Output { category, message } => EventStepView::SendOutput {
            category,
            message,
        },
        DapEventView::Exited { code } => EventStepView::SendExited {
            exit_code: numbers::sign_extended(code),
        },
    }
}

/// The session after an event: variables hold only until the next stop, and none outlives the
/// debuggee.
pub open spec fn session_after_event(session: SessionView, event: DapEventView) -> SessionView {
    match event {
        DapEventView::Output { .. } => session,
        _ => SessionView { variables: session.variables.cleared(), ..session },
    }
}

/// What follows a step. A reply that answers no pending step changes nothing.
pub open spec fn after_event_step(step: EventStepView, reply: EventReplyView) -> EventStepView {
    match (step, reply) {
        (EventStepView::ReadFocus(stop), EventReplyView::Focus(pid)) => {
            EventStepView::SendStopped(stopped_event_of(stop, stop_signal_name(stop), pid))
        },
        (EventStepView::ReadFocus(_), EventReplyView::Failed(err)) => EventStepView::Fail(err),
        (EventStepView::SendStopped(_), EventReplyView::Sent) => EventStepView::Done,
        (EventStepView::SendStopped(_), EventReplyView::NotSent(reason)) => {
            EventStepView::Fail(error::internal("send stopped event"@, reason))
        },
        (EventStepView::SendOutput { .. }, EventReplyView::Sent) => EventStepView::Done,
        (EventStepView::SendOutput { .. }, EventReplyView::NotSent(reason)) => {
            EventStepView::Fail(error::internal("send output event"@, reason))
        },
        (EventStepView::SendExited { .. }, EventReplyView::Sent) => EventStepView::SendTerminated,
        (EventStepView::SendExited { .. }, EventReplyView::NotSent(reason)) => {
            EventStepView::Fail(error::internal("send exited event"@, reason))
        },
        (EventStepView::SendTerminated, EventReplyView::Sent) => EventStepView::Done,
        (EventStepView::SendTerminated, EventReplyView::NotSent(reason)) => {
            EventStepView::Fail(error::internal("send terminated event"@, reason))
        },
        _ => step,
    }
}

/// Takes an event in, and decides how to pass it on.
pub fn handle_event(session: &mut SessionState, event: DapEvent) -> (r: EventStep)
    ensures
        r@ == first_event_step(event@),
        final(session)@ == session_after_event(old(session)@, event@),
        old(session)@.variables.wf() ==> final(session)@.variables.wf(),
{
    match event {
        DapEvent::Stopped(stop) => {
            session.variables.clear();
            EventStep::ReadFocus(stop)
        },
        DapEvent::Output { category, message } => EventStep::SendOutput { category, message },
        DapEvent::Exited { code } => {
            session.variables.clear();
            EventStep::SendExited { exit_code: numbers::extend_u64(code) }
        },
    }
}

/// Decides what to do next to pass an event on.
pub fn next_event_step(step: EventStep, reply: EventReply) -> (r: EventStep)
    ensures
        r@ == after_event_step(step@, reply@),
{
    match (step, reply) {
        (EventStep::ReadFocus(stop), EventReply::Focus(pid)) => {
            EventStep::SendStopped(stopped_event(stop, pid))
        },
        (EventStep::ReadFocus(_), EventReply::Failed(err)) => EventStep::Fail(err),
        (EventStep::SendStopped(_), EventReply::Sent) => EventStep::Done,
        (EventStep::SendStopped(_), EventReply::NotSent(reason)) => {
            EventStep::Fail(error::internal_error("send stopped event", reason.as_str()))
        },
        (EventStep::SendOutput { .. }, EventReply::Sent) => EventStep::Done,
        (EventStep::SendOutput { .. }, EventReply::NotSent(reason)) => {
            EventStep::Fail(error::internal_error("send output event", reason.as_str()))
        },
        (EventStep::SendExited { .. }, EventReply::Sent) => EventStep::SendTerminated,
        (EventStep::SendExited { .. }, EventReply::NotSent(reason)) => {
            EventStep::Fail(error::internal_error("send exited event", reason.as_str()))
        },
        (EventStep::SendTerminated, EventReply::Sent) => EventStep::Done,
        (EventStep::SendTerminated, EventReply::NotSent(reason)) => {
            EventStep::Fail(error::internal_error("send terminated event", reason.as_str()))
        },
        (step, _) => step,
    }
}

/// What came of reading from an output of the debuggee.
#[derive(Debug, PartialEq, Eq)]
pub enum ReadOutcome {
    /// These bytes; none at the end of the output.
    Bytes(Vec<u8>),
    /// The read failed, for this reason.
    Failed(String),
}

/// What to do after a read.
#[derive(Debug, PartialEq, Eq)]
pub struct Forwarding {
    /// The event to send, if there is one.
    pub event: Option<DapEvent>,
    /// Whether to read on.
    pub read_on: bool,
}

/// The text of what was read, as far as it is text.
pub open spec fn read_text(outcome: ReadOutcome) -> Seq<char> {
    match outcome {
        ReadOutcome::Bytes(bytes) => lossy_text(bytes@),
        ReadOutcome::Failed(_) => Seq::empty(),
    }
}

/// What a client hears of a read, given the text of what was read: the text, under the category
/// of the output, or the failure, which is always an error.
pub open spec fn forwarded(
    category: Seq<char>,
    outcome: ReadOutcome,
    text: Seq<char>,
) -> Option<DapEventView> {
    match outcome {
        ReadOutcome::Bytes(bytes) => if bytes@.len() == 0 {
            None
        } else {
            Some(DapEventView::Output { category, message: text })
        },
        ReadOutcome::Failed(reason) => Some(
            DapEventView::Output { category: "stderr"@, message: "I/O error: "@ + reason@ },
        ),
    }
}

/// Whether to read on: until the output ends or fails.
pub open spec fn reads_on(outcome: ReadOutcome) -> bool {
    outcome matches ReadOutcome::Bytes(bytes) && bytes@.len() > 0
}

/// The view of an optional event.
pub open spec fn event_view(event: Option<DapEvent>) -> Option<DapEventView> {
    match event {
        Some(event) => Some(event@),
        None => None,
    }
}

/// Decides what to do after a read, given the text of what was read.
pub fn forward_text(category: &str, outcome: &ReadOutcome, text: String) -> (r: Forwarding)
    ensures
        event_view(r.event) == forwarded(category@, *outcome, text@),
        r.read_on == reads_on(*outcome),
{
    match outcome {
        ReadOutcome::Bytes(bytes) => {
            if bytes.len() == 0 {
                Forwarding { event: None, read_on: false }
            } else {
                Forwarding {
                    event: Some(
                        DapEvent::Output { category: category.to_owned(), message: text },
                    ),
                    read_on: true,
                }
            }
        },
        ReadOutcome::Failed(reason) => Forwarding {
            event: Some(
                DapEvent::Output {
                    category: "stderr".to_owned(),
                    message: "I/O error: ".to_owned().concat(reason.as_str()),
                },
            ),
            read_on: false,
        },
    }
}

/// Decides what to do after a read from the output of the debuggee with this category.
pub fn forward_output(category: &str, outcome: &ReadOutcome) -> (r: Forwarding)
    ensures
        event_view(r.event) == forwarded(category@, *outcome, read_text(*outcome)),
        r.read_on == reads_on(*outcome),
        match *outcome {
            ReadOutcome::Bytes(bytes) => bytes@.len() > 0 && vstd::utf8::valid_utf8(bytes@)
                ==> event_view(r.event) == Some(
                DapEventView::Output {
                    category: category@,
                    message: vstd::utf8::decode_utf8(bytes@),
                },
            ),
            ReadOutcome::Failed(_) => true,
        },
{
    let text = match outcome {
        ReadOutcome::Bytes(bytes) => decode_lossy(bytes.as_slice()),
        ReadOutcome::Failed(_) => String::new(),
    };
    forward_text(category, outcome, text)
}

/// Whatever happens to the debuggee but output, no variable can be asked for afterwards.
pub proof fn law_events_forget_variables(session: SessionView, event: DapEventView, handle: u32)
    requires
        !(event is Output),
    ensures
        !session_after_event(session, event).variables.entries.dom().contains(handle),
{
}

/// An event changes nothing in a session but its variables.
pub proof fn law_events_keep_configuration(session: SessionView, event: DapEventView)
    ensures
        session_after_event(session, event).stop_on_entry == session.stop_on_entry,
        session_after_event(session, event).configured == session.configured,
        session_after_event(session, event).started == session.started,
        session_after_event(session, event).thread_map == session.thread_map,
        session_after_event(session, event).breakpoints == session.breakpoints,
{
}

/// A client that is told that the debuggee exited is also told that the session terminated,
/// unless it cannot be reached.
pub proof fn law_exit_terminates(code: i32)
    ensures
        ({
            let sent = first_event_step(DapEventView::Exited { code });
            let second = after_event_step(sent, EventReplyView::Sent);
            &&& sent == EventStepView::SendExited { exit_code: numbers::sign_extended(code) }
            &&& second == EventStepView::SendTerminated
            &&& after_event_step(second, EventReplyView::Sent) == EventStepView::Done
        }),
{
}

/// A stop is described by its kind: a breakpoint by its number, in the text and in the list of
/// breakpoints that were hit, a signal by its name, and a step by nothing more. It is a stop of
/// all threads, in the thread that the debugger looks at.
pub proof fn law_stop_is_described(stop: StopEvent, pid: i32)
    ensures
        ({
            let step = after_event_step(
                first_event_step(DapEventView::Stopped(stop)),
                EventReplyView::Focus(pid),
            );
            let event = step->SendStopped_0;
            &&& first_event_step(DapEventView::Stopped(stop)) is ReadFocus
            &&& step is SendStopped
            &&& event.thread_id == Some(numbers::sign_extended(pid))
            &&& event.all_threads_stopped == Some(true)
            &&& match stop {
                StopEvent::Breakpoint { id } => {
                    &&& event.reason == StoppedReason::Breakpoint
                    &&& event.text == Some("Hit breakpoint #"@ + text::decimal(id as int))
                    &&& event.hit_breakpoint_ids is Some
                    &&& event.hit_breakpoint_ids->0.len() == 1
                    &&& event.hit_breakpoint_ids->0[0] == id
                },
                StopEvent::Step => {
                    &&& event.reason == StoppedReason::Step
                    &&& event.text is None
                    &&& event.hit_breakpoint_ids is None
                },
                StopEvent::Signal { signal } => {
                    &&& event.reason == StoppedReason::Exception
                    &&& event.text == Some("Signal "@ + signal_name(signal))
                    &&& event.hit_breakpoint_ids is None
                },
                StopEvent::Watchpoint => {
                    &&& event.reason == StoppedReason::DataBreakpoint
                    &&& event.text == Some("Watchpoint triggered"@)
                    &&& event.hit_breakpoint_ids is None
                },
            }
        }),
{
}

/// A stop is described with the given name of a signal exactly if a signal caused it.
pub proof fn law_signal_name_is_used(
    stop: StopEvent,
    name: Seq<char>,
    other: Seq<char>,
    pid: i32,
)
    ensures
        stop is Signal ==> stopped_event_of(stop, name, pid).text == Some("Signal "@ + name),
        !(stop is Signal) ==> stopped_event_of(stop, name, pid) == stopped_event_of(
            stop,
            other,
            pid,
        ),
{
}

/// Output is passed on as it is, under its category, and changes nothing in the session.
pub proof fn law_output_is_passed_on(session: SessionView, category: Seq<char>, message: Seq<char>)
    ensures
        ({
            let event = DapEventView::Output { category, message };
            let step = first_event_step(event);
            &&& step == (EventStepView::SendOutput { category, message })
            &&& after_event_step(step, EventReplyView::Sent) == EventStepView::Done
            &&& session_after_event(session, event) == session
        }),
{
}

/// An event that is not output leaves the session as it was, but with no variables and with handles
/// given out from one again.
pub proof fn law_events_restart_handles(session: SessionView, event: DapEventView)
    requires
        !(event is Output),
    ensures
        session_after_event(session, event).variables.next_handle() == 1,
        session_after_event(session, event) == (SessionView {
            variables: session_after_event(session, event).variables,
            ..session
        }),
{
}

/// A client that cannot be reached is the reason why an event is not passed on, with what was to be
/// sent; a debugger that fails is another, as it says. An event that was passed on, or was not,
/// takes no further step.
pub proof fn law_unsent_event_is_reported(
    step: EventStepView,
    reply: EventReplyView,
    reason: Seq<char>,
    err: DapErrorView,
)
    ensures
        ({
            let unsent = after_event_step(step, EventReplyView::NotSent(reason));
            &&& step is SendStopped ==> unsent == EventStepView::Fail(
                DapErrorView::Internal("send stopped event"@ + ": "@ + reason),
            )
            &&& step is SendOutput ==> unsent == EventStepView::Fail(
                DapErrorView::Internal("send output event"@ + ": "@ + reason),
            )
            &&& step is SendExited ==> unsent == EventStepView::Fail(
                DapErrorView::Internal("send exited event"@ + ": "@ + reason),
            )
            &&& step is SendTerminated ==> unsent == EventStepView::Fail(
                DapErrorView::Internal("send terminated event"@ + ": "@ + reason),
            )
        }),
        step is ReadFocus ==> after_event_step(step, EventReplyView::Failed(err))
            == EventStepView::Fail(err),
        step is SendStopped ==> after_event_step(step, EventReplyView::Sent) == EventStepView::Done,
        step is Done || step is Fail ==> after_event_step(step, reply) == step,
{
}

/// What is read from an output reaches the client under the category of that output, with the text
/// of exactly these bytes, and reading goes on. The end of the output is silent, and a failure is
/// reported as an error, whatever the output; after either, nothing more is read.
pub proof fn law_reads_are_forwarded(category: Seq<char>, outcome: ReadOutcome)
    ensures
        ({
            let event = forwarded(category, outcome, read_text(outcome));
            match outcome {
                ReadOutcome::Bytes(bytes) => {
                    &&& reads_on(outcome) <==> bytes@.len() > 0
                    &&& bytes@.len() == 0 ==> event is None
                    &&& bytes@.len() > 0 ==> event == Some(
                        DapEventView::Output { category, message: lossy_text(bytes@) },
                    )
                },
                ReadOutcome::Failed(reason) => {
                    &&& !reads_on(outcome)
                    &&& event == Some(
                        DapEventView::Output {
                            category: "stderr"@,
                            message: "I/O error: "@ + reason@,
                        },
                    )
                },
            }
        }),
{
}

/// The text that a read is forwarded with is the one that was made of it.
pub proof fn law_forwarded_text_is_given(
    category: Seq<char>,
    bytes: Vec<u8>,
    message: Seq<char>,
)
    requires
        bytes@.len() > 0,
    ensures
        forwarded(category, ReadOutcome::Bytes(bytes), message) == Some(
            DapEventView::Output { category, message },
        ),
{
}

/// The view of an event tells which it is and all that it carries.
pub proof fn law_events_are_seen_whole(event: DapEvent)
    ensures
        event_view(Some(event)) == Some(event@),
        event_view(None) is None,
        match event@ {
            DapEventView::Stopped(stop) => event is Stopped && stop == event->Stopped_0,
            DapEventView::Output { category, message } => event is Output && category
                == event->category@ && message == event->message@,
            DapEventView::Exited { code } => event is Exited && code == event->code,
        },
{
}

/// The view of a described stop tells all its fields.
pub proof fn law_stops_are_seen_whole(event: StoppedEvent)
    ensures
        event@.reason == event.reason,
        event@.text == text::text_view(event.text),
        event@.thread_id == event.thread_id,
        event@.all_threads_stopped == event.all_threads_stopped,
        event@.hit_breakpoint_ids is Some <==> event.hit_breakpoint_ids is Some,
        event.hit_breakpoint_ids is Some ==> event@.hit_breakpoint_ids->0
            == event.hit_breakpoint_ids->0@,
{
}

/// The views of a step and of a reply tell which it is and all that it carries.
pub proof fn law_event_steps_are_seen_whole(step: EventStep, reply: EventReply)
    ensures
        match step@ {
            EventStepView::ReadFocus(stop) => step is ReadFocus && stop == step->ReadFocus_0,
            EventStepView::SendStopped(event) => step is SendStopped && event
                == step->SendStopped_0@,
            EventStepView::SendOutput { category, message } => step is SendOutput && category
                == step->category@ && message == step->message@,
            EventStepView::SendExited { exit_code } => step is SendExited && exit_code
                == step->exit_code,
            EventStepView::SendTerminated => step is SendTerminated,
            EventStepView::Done => step is Done,
            EventStepView::Fail(err) => step is Fail && err == step->Fail_0@,
        },
        match reply@ {
            EventReplyView::Focus(pid) => reply is Focus && pid == reply->Focus_0,
            EventReplyView::Failed(err) => reply is Failed && err == reply->Failed_0@,
            EventReplyView::Sent => reply is Sent,
            EventReplyView::NotSent(reason) => reply is NotSent && reason == reply->NotSent_0@,
        },
{
}

} // verus!

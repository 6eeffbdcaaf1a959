//! Looking into a frame of another thread, and coming back.

use crate::numbers;
use crate::thread;
use crate::thread::ThreadSnapshot;
use vstd::prelude::*;

verus! {

/// The frame that the debugger looks at.
#[derive(Clone, Copy, Debug, PartialEq, Eq)]
pub struct Focus {
    /// The process id of the thread.
    pub pid: i32,
    /// The position of the frame on the stack.
    pub frame: u32,
}

/// A frame to look into, with the number that the debugger knows its thread by.
#[derive(Clone, Copy, Debug, PartialEq, Eq)]
pub struct FrameTarget {
    pub thread_number: u32,
    pub thread_pid: i32,
    pub frame_index: u32,
}

/// A visit to a frame, from where the debugger looks now.
#[derive(Clone, Copy, Debug, PartialEq, Eq)]
pub struct FrameVisit {
    pub target: FrameTarget,
    pub home: Focus,
}

/// What to do next on a visit.
#[derive(Clone, Copy, Debug, PartialEq, Eq)]
pub enum VisitStep {
    /// List the threads, to know the number of the home one.
    ReadThreads,
    /// Put the target's thread into focus; `back` is the number of the home thread.
    EnterThread { number: u32, back: u32 },
    /// Put the target's frame into focus.
    EnterFrame { frame: u32, home: Option<u32> },
    /// Do what the visit is for, and keep the result.
    Run { home: Option<u32> },
    /// Put the home thread into focus again.
    LeaveThread { number: u32 },
    /// Put the home frame into focus again.
    LeaveFrame { frame: u32 },
    /// Hand out the result.
    Finish,
    /// Report that the home thread, with this process id, is not there any more.
    TraceeNotFound(u32),
    /// Report the failure of the debugger.
    Abandon,
}

/// How the debugger answered a step.
#[derive(Debug, PartialEq, Eq)]
pub enum VisitReply {
    Threads(Vec<ThreadSnapshot>),
    /// The thread is in focus; the debugger looks at this frame of it.
    ThreadFocused { frame: u32 },
    FrameFocused,
    /// What the visit is for was done.
    Ran,
    /// The step failed.
    Failed,
}

/// What a [`VisitReply`] holds.
pub enum VisitReplyView {
    Threads(Seq<ThreadSnapshot>),
    ThreadFocused { frame: u32 },
    FrameFocused,
    Ran,
    Failed,
}

impl View for VisitReply {
    type V = VisitReplyView;

    open spec fn view(&self) -> VisitReplyView {
        match self {
            VisitReply::Threads(threads) => VisitReplyView::Threads(threads@),
            VisitReply::ThreadFocused { frame } => VisitReplyView::ThreadFocused { frame: *frame },
            VisitReply::FrameFocused => VisitReplyView::FrameFocused,
            VisitReply::Ran => VisitReplyView::Ran,
            VisitReply::Failed => VisitReplyView::Failed,
        }
    }
}

impl FrameVisit {
    /// Whether the target is in another thread than the one in focus.
    pub open spec fn leaves_thread(self) -> bool {
        self.home.pid != self.target.thread_pid
    }

    /// Enters the target's frame, if the debugger looks at another one, and runs.
    pub open spec fn into_frame(self, frame: u32, home: Option<u32>) -> VisitStep {
        if frame != self.target.frame_index {
            VisitStep::EnterFrame { frame: self.target.frame_index, home }
        } else {
            VisitStep::Run { home }
        }
    }

    /// The first step: another thread is entered only once the number of the home one is
    /// known.
    pub open spec fn first_step(self) -> VisitStep {
        if self.leaves_thread() {
            VisitStep::ReadThreads
        } else {
            self.into_frame(self.home.frame, None)
        }
    }

    /// The way back, after the run.
    pub open spec fn back(self, home: Option<u32>) -> VisitStep {
        match home {
            Some(number) => VisitStep::LeaveThread { number },
            None => if self.home.frame != self.target.frame_index {
                VisitStep::LeaveFrame { frame: self.home.frame }
            } else {
                VisitStep::Finish
            },
        }
    }

    /// What follows a step. A run leads back whether or not it succeeds; any other failure ends the
    /// visit. A reply that answers no pending step changes nothing.
    pub open spec fn following(self, step: VisitStep, reply: VisitReplyView) -> VisitStep {
        match (step, reply) {
            (VisitStep::Finish, _) => step,
            (VisitStep::TraceeNotFound(_), _) => step,
            (VisitStep::Run { home }, VisitReplyView::Failed) => self.back(home),
            (_, VisitReplyView::Failed) => VisitStep::Abandon,
            (VisitStep::ReadThreads, VisitReplyView::Threads(threads)) => match thread::number_of(
                threads,
                self.home.pid,
            ) {
                Some(home) => VisitStep::EnterThread {
                    number: self.target.thread_number,
                    back: home,
                },
                None => VisitStep::TraceeNotFound(numbers::as_unsigned(self.home.pid)),
            },
            (
                VisitStep::EnterThread { back, .. },
                VisitReplyView::ThreadFocused { frame },
            ) => self.into_frame(frame, Some(back)),
            (VisitStep::EnterFrame { home, .. }, VisitReplyView::FrameFocused) => {
                VisitStep::Run { home }
            },
            (VisitStep::Run { home }, VisitReplyView::Ran) => self.back(home),
            (VisitStep::LeaveThread { .. }, VisitReplyView::ThreadFocused { .. }) => {
                if self.home.frame != 0 {
                    VisitStep::LeaveFrame { frame: self.home.frame }
                } else {
                    VisitStep::Finish
                }
            },
            (VisitStep::LeaveFrame { .. }, VisitReplyView::FrameFocused) => VisitStep::Finish,
            _ => step,
        }
    }

    fn enter_frame(&self, frame: u32, home: Option<u32>) -> (r: VisitStep)
        ensures
            r == self.into_frame(frame, home),
    {
        if frame != self.target.frame_index {
            VisitStep::EnterFrame { frame: self.target.frame_index, home }
        } else {
            VisitStep::Run { home }
        }
    }

    fn go_back(&self, home: Option<u32>) -> (r: VisitStep)
        ensures
            r == self.back(home),
    {
        match home {
            Some(number) => VisitStep::LeaveThread { number },
            None => if self.home.frame != self.target.frame_index {
                VisitStep::LeaveFrame { frame: self.home.frame }
            } else {
                VisitStep::Finish
            },
        }
    }

    /// Decides how a visit begins.
    pub fn begin(&self) -> (r: VisitStep)
        ensures
            r == self.first_step(),
    {
        if self.home.pid != self.target.thread_pid {
            VisitStep::ReadThreads
        } else {
            self.enter_frame(self.home.frame, None)
        }
    }
}

/// Decides what to do next on a visit to a frame.
pub fn with_thread_frame(visit: &FrameVisit, step: VisitStep, reply: VisitReply) -> (r: VisitStep)
    ensures
        r == visit.following(step, reply@),
{
    match (step, reply) {
        (VisitStep::Finish, _) => step,
        (VisitStep::TraceeNotFound(_), _) => step,
        (VisitStep::Run { home }, VisitReply::Failed) => visit.go_back(home),
        (_, VisitReply::Failed) => VisitStep::Abandon,
        (VisitStep::ReadThreads, VisitReply::Threads(threads)) => match thread::find_thread(
            &threads,
            visit.home.pid,
        ) {
            Some(home) => VisitStep::EnterThread {
                number: visit.target.thread_number,
                back: home,
            },
            None => VisitStep::TraceeNotFound(numbers::reinterpret_u32(visit.home.pid)),
        },
        (VisitStep::EnterThread { back, .. }, VisitReply::ThreadFocused { frame }) => {
            visit.enter_frame(frame, Some(back))
        },
        (VisitStep::EnterFrame { home, .. }, VisitReply::FrameFocused) => {
            VisitStep::Run { home }
        },
        (VisitStep::Run { home }, VisitReply::Ran) => visit.go_back(home),
        (VisitStep::LeaveThread { .. }, VisitReply::ThreadFocused { .. }) => {
            if visit.home.frame != 0 {
                VisitStep::LeaveFrame { frame: visit.home.frame }
            } else {
                VisitStep::Finish
            }
        },
        (VisitStep::LeaveFrame { .. }, VisitReply::FrameFocused) => VisitStep::Finish,
        (step, _) => step,
    }
}

/// The process id of the first listed thread with this number.
pub open spec fn pid_of(threads: Seq<ThreadSnapshot>, number: u32) -> Option<i32>
    decreases threads.len(),
{
    if threads.len() == 0 {
        None
    } else if threads[0].number == number {
        Some(threads[0].pid)
    } else {
        pid_of(threads.drop_first(), number)
    }
}

/// Where a debugger with these threads looks after a step that succeeds: a thread that is put
/// into focus is looked at in its top frame.
pub open spec fn focus_after(step: VisitStep, focus: Focus, threads: Seq<ThreadSnapshot>) -> Focus {
    match step {
        VisitStep::EnterThread { number, .. } | VisitStep::LeaveThread { number } => match pid_of(
            threads,
            number,
        ) {
            Some(pid) => Focus { pid, frame: 0 },
            None => focus,
        },
        VisitStep::EnterFrame { frame, .. } | VisitStep::LeaveFrame { frame } => Focus {
            frame,
            ..focus
        },
        _ => focus,
    }
}

/// How such a debugger answers a step; `runs` says whether what the visit is for succeeds.
pub open spec fn reply_to(
    step: VisitStep,
    focus: Focus,
    threads: Seq<ThreadSnapshot>,
    runs: bool,
) -> VisitReplyView {
    match step {
        VisitStep::ReadThreads => VisitReplyView::Threads(threads),
        VisitStep::EnterThread { .. } | VisitStep::LeaveThread { .. } => {
            VisitReplyView::ThreadFocused { frame: focus_after(step, focus, threads).frame }
        },
        VisitStep::EnterFrame { .. } | VisitStep::LeaveFrame { .. } => VisitReplyView::FrameFocused,
        _ => if runs {
            VisitReplyView::Ran
        } else {
            VisitReplyView::Failed
        },
    }
}

/// The state of a visit: the pending step, where the debugger looks, and where it looked when
/// the visit ran.
pub struct VisitState {
    pub step: VisitStep,
    pub focus: Focus,
    pub ran_at: Option<Focus>,
}

impl FrameVisit {
    /// A visit after `steps` steps, in a debugger with these threads; `runs` says whether what the
    /// visit is for succeeds.
    pub open spec fn after(self, threads: Seq<ThreadSnapshot>, runs: bool, steps: nat) -> VisitState
        decreases steps,
    {
        if steps == 0 {
            VisitState { step: self.first_step(), focus: self.home, ran_at: None }
        } else {
            let before = self.after(threads, runs, (steps - 1) as nat);
            VisitState {
                step: self.following(
                    before.step,
                    reply_to(before.step, before.focus, threads, runs),
                ),
                focus: focus_after(before.step, before.focus, threads),
                ran_at: if before.step is Run {
                    Some(before.focus)
                } else {
                    before.ran_at
                },
            }
        }
    }

    /// The debugger lists the home thread, and its numbers and process ids go together.
    pub open spec fn is_possible(self, threads: Seq<ThreadSnapshot>) -> bool {
        &&& thread::number_of(threads, self.home.pid) is Some
        &&& pid_of(threads, thread::number_of(threads, self.home.pid)->0) == Some(
            self.home.pid,
        )
        &&& pid_of(threads, self.target.thread_number) == Some(self.target.thread_pid)
    }
}

/// A visit runs in the frame that it is for, and once it is over the debugger looks where it
/// looked before, whether or not the run succeeded.
pub proof fn law_visit_restores_focus(
    visit: FrameVisit,
    threads: Seq<ThreadSnapshot>,
    runs: bool,
)
    requires
        visit.leaves_thread() ==> visit.is_possible(threads),
    ensures
        visit.after(threads, runs, 6).step == VisitStep::Finish,
        visit.after(threads, runs, 6).focus == visit.home,
        visit.after(threads, runs, 6).ran_at == Some(
            Focus { pid: visit.target.thread_pid, frame: visit.target.frame_index },
        ),
{
    reveal_with_fuel(FrameVisit::after, 7);
}

/// A visit within the thread in focus never asks for another thread, so it needs no list of
/// threads; within the frame in focus it moves nothing at all.
pub proof fn law_visit_moves_no_more_than_needed(visit: FrameVisit)
    requires
        !visit.leaves_thread(),
    ensures
        visit.first_step() is EnterFrame || visit.first_step() is Run,
        visit.home.frame == visit.target.frame_index ==> {
            &&& visit.first_step() == VisitStep::Run { home: None }
            &&& visit.following(visit.first_step(), VisitReplyView::Ran) == VisitStep::Finish
        },
{
}

/// A visit to another thread is not begun where there would be no way back.
pub proof fn law_visit_needs_way_back(visit: FrameVisit, threads: Seq<ThreadSnapshot>)
    requires
        visit.leaves_thread(),
        thread::number_of(threads, visit.home.pid) is None,
    ensures
        visit.first_step() == VisitStep::ReadThreads,
        visit.following(VisitStep::ReadThreads, VisitReplyView::Threads(threads))
            == VisitStep::TraceeNotFound(numbers::as_unsigned(visit.home.pid)),
{
}

/// On a visit to another thread, that thread is entered, then its frame unless the debugger looks
/// there already; after the run the home thread is entered again, and its frame unless that is the
/// top one.
pub proof fn law_visit_goes_there_and_back(
    visit: FrameVisit,
    threads: Seq<ThreadSnapshot>,
    back: u32,
    frame: u32,
    ran: VisitReplyView,
)
    requires
        visit.leaves_thread(),
        thread::number_of(threads, visit.home.pid) == Some(back),
        ran is Ran || ran is Failed,
    ensures
        ({
            let entering = VisitStep::EnterThread { number: visit.target.thread_number, back };
            let entered = VisitReplyView::ThreadFocused { frame };
            let running = VisitStep::Run { home: Some(back) };
            let framing = VisitStep::EnterFrame {
                frame: visit.target.frame_index,
                home: Some(back),
            };
            let leaving = VisitStep::LeaveThread { number: back };
            &&& visit.first_step() == VisitStep::ReadThreads
            &&& visit.following(VisitStep::ReadThreads, VisitReplyView::Threads(threads))
                == entering
            &&& frame == visit.target.frame_index ==> visit.following(entering, entered) == running
            &&& frame != visit.target.frame_index ==> visit.following(entering, entered) == framing
            &&& visit.following(framing, VisitReplyView::FrameFocused) == running
            &&& visit.following(running, ran) == leaving
            &&& visit.home.frame == 0 ==> visit.following(leaving, entered) == VisitStep::Finish
            &&& visit.home.frame != 0 ==> visit.following(leaving, entered)
                == VisitStep::LeaveFrame { frame: visit.home.frame }
            &&& visit.following(
                VisitStep::LeaveFrame { frame: visit.home.frame },
                VisitReplyView::FrameFocused,
            ) == VisitStep::Finish
        }),
{
}

/// On a visit within the thread in focus the frame is entered and left again, exactly if it is
/// another one.
pub proof fn law_visit_within_thread(visit: FrameVisit, ran: VisitReplyView)
    requires
        !visit.leaves_thread(),
        ran is Ran || ran is Failed,
    ensures
        ({
            let running = VisitStep::Run { home: None };
            let framing = VisitStep::EnterFrame { frame: visit.target.frame_index, home: None };
            &&& visit.home.frame == visit.target.frame_index ==> {
                &&& visit.first_step() == running
                &&& visit.following(running, ran) == VisitStep::Finish
            }
            &&& visit.home.frame != visit.target.frame_index ==> {
                &&& visit.first_step() == framing
                &&& visit.following(framing, VisitReplyView::FrameFocused) == running
                &&& visit.following(running, ran) == VisitStep::LeaveFrame {
                    frame: visit.home.frame,
                }
                &&& visit.following(
                    VisitStep::LeaveFrame { frame: visit.home.frame },
                    VisitReplyView::FrameFocused,
                ) == VisitStep::Finish
            }
        }),
{
}

/// Whether a visit changes threads depends on the process ids alone.
pub proof fn law_other_thread_means_other_pid(visit: FrameVisit)
    ensures
        visit.leaves_thread() <==> visit.home.pid != visit.target.thread_pid,
{
}

/// A visit is abandoned where the debugger fails to list threads or to move, and is over once it
/// has come to an end.
pub proof fn law_failed_visit_is_abandoned(visit: FrameVisit, step: VisitStep, reply: VisitReplyView)
    ensures
        step is ReadThreads || step is EnterThread || step is EnterFrame || step is LeaveThread
            || step is LeaveFrame ==> visit.following(step, VisitReplyView::Failed)
            == VisitStep::Abandon,
        step is Finish || step is TraceeNotFound || step is Abandon ==> visit.following(step, reply)
            == step,
{
}

/// The view of a reply tells which it is and all that it carries.
pub proof fn law_visit_replies_are_seen_whole(reply: VisitReply)
    ensures
        match reply@ {
            VisitReplyView::Threads(threads) => reply is Threads && threads == reply->Threads_0@,
            VisitReplyView::ThreadFocused { frame } => reply is ThreadFocused && frame
                == reply->frame,
            VisitReplyView::FrameFocused => reply is FrameFocused,
            VisitReplyView::Ran => reply is Ran,
            VisitReplyView::Failed => reply is Failed,
        },
{
}

} // verus!

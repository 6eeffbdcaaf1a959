//! The state of a debug session, and how the debuggee gets to run.

use crate::error;
use crate::error::{DapError, DapErrorView};
use crate::handles;
use crate::handles::{HandlesView, Variable, VariableHandles};
use crate::launch;
use crate::node::NodeView;
use crate::numbers;
use crate::placement::{PlacedBreakpoints, PlacedView};
use crate::text;
use crate::thread::ThreadSnapshot;
use std::collections::HashMap;
use vstd::prelude::*;
use vstd::string::*;

verus! {

/// Whether a session stops on entry unless its client says otherwise.
pub const STOP_ON_ENTRY_DEFAULT: bool = true;

/// The state of a debug session.
pub struct SessionState {
    pub stop_on_entry: bool,
    /// Whether the client is done with the configuration.
    pub configured: bool,
    /// Whether the debuggee was started.
    pub started: bool,
    /// The numbers of the known threads, by process id.
    pub thread_map: HashMap<i32, u32>,
    pub variables: VariableHandles,
    /// The breakpoints that the debugger holds for the client.
    pub breakpoints: PlacedBreakpoints,
}

/// What a [`SessionState`] holds.
#[verifier::ext_equal]
pub struct SessionView {
    pub stop_on_entry: bool,
    pub configured: bool,
    pub started: bool,
    pub thread_map: Map<i32, u32>,
    pub variables: HandlesView,
    pub breakpoints: Seq<PlacedView>,
}

impl View for SessionState {
    type V = SessionView;

    open spec fn view(&self) -> SessionView {
        SessionView {
            stop_on_entry: self.stop_on_entry,
            configured: self.configured,
            started: self.started,
            thread_map: self.thread_map@,
            variables: self.variables@,
            breakpoints: self.breakpoints@,
        }
    }
}

impl SessionView {
    /// A session that has just begun.
    pub open spec fn fresh() -> SessionView {
        SessionView {
            stop_on_entry: STOP_ON_ENTRY_DEFAULT,
            configured: false,
            started: false,
            thread_map: Map::empty(),
            variables: HandlesView::unused(),
            breakpoints: Seq::empty(),
        }
    }
}

impl Default for SessionState {
    fn default() -> (r: Self)
        ensures
            r@ == SessionView::fresh(),
            r@.variables.wf(),
    {
        let r = SessionState {
            stop_on_entry: STOP_ON_ENTRY_DEFAULT,
            configured: false,
            started: false,
            thread_map: HashMap::new(),
            variables: VariableHandles::default(),
            breakpoints: PlacedBreakpoints::default(),
        };
        assert(r@ =~= SessionView::fresh());
        r
    }
}

/// What to do next to get the debuggee to run.
#[derive(Debug, PartialEq, Eq)]
pub enum StartStep {
    /// Start the debuggee, and let it run on unless it is to stop on entry.
    StartDebuggee { stop_on_entry: bool },
    /// Tell the client that the debuggee, with this process id, continues.
    AnnounceContinued { thread_id: u64, all_threads_continued: Option<bool> },
    /// Let the debuggee continue.
    ContinueDebuggee,
    /// Answer that the request was carried out, and, where it let the debuggee continue, whether
    /// all threads do.
    Done { all_threads_continued: Option<bool> },
    /// Refuse the request.
    Fail(DapError),
}

/// What a [`StartStep`] holds.
pub enum StartStepView {
    StartDebuggee { stop_on_entry: bool },
    AnnounceContinued { thread_id: u64, all_threads_continued: Option<bool> },
    ContinueDebuggee,
    Done { all_threads_continued: Option<bool> },
    Fail(DapErrorView),
}

impl View for StartStep {
    type V = StartStepView;

    open spec fn view(&self) -> StartStepView {
        match self {
            StartStep::StartDebuggee { stop_on_entry } => StartStepView::StartDebuggee {
                stop_on_entry: *stop_on_entry,
            },
            StartStep::AnnounceContinued {
                thread_id,
                all_threads_continued,
            } => StartStepView::AnnounceContinued {
                thread_id: *thread_id,
                all_threads_continued: *all_threads_continued,
            },
            StartStep::ContinueDebuggee => StartStepView::ContinueDebuggee,
            StartStep::Done { all_threads_continued } => StartStepView::Done {
                all_threads_continued: *all_threads_continued,
            },
            StartStep::Fail(err) => StartStepView::Fail(err@),
        }
    }
}

/// How a step went.
#[derive(Debug, PartialEq, Eq)]
pub enum StartReply {
    /// It succeeded.
    Done,
    /// The debugger failed.
    Failed(DapError),
    /// The client could not be told, for this reason.
    NotSent(String),
}

/// What a [`StartReply`] holds.
pub enum StartReplyView {
    Done,
    Failed(DapErrorView),
    NotSent(Seq<char>),
}

impl View for StartReply {
    type V = StartReplyView;

    open spec fn view(&self) -> StartReplyView {
        match self {
            StartReply::Done => StartReplyView::Done,
            StartReply::Failed(err) => StartReplyView::Failed(err@),
            StartReply::NotSent(reason) => StartReplyView::NotSent(reason@),
        }
    }
}

/// A request that can get the debuggee to start.
pub enum ConfigRequest {
    /// A launch or an attach request, with the flag that it carries, if any.
    Launch(Option<bool>),
    ConfigurationDone,
}

impl SessionView {
    /// Whether the debuggee is to be started now: once the configuration is done, and once only.
    pub open spec fn is_due(self) -> bool {
        self.configured && !self.started
    }

    /// How the debuggee is started, if it is due.
    pub open spec fn start_step(self) -> StartStepView {
        if self.is_due() {
            StartStepView::StartDebuggee { stop_on_entry: self.stop_on_entry }
        } else {
            StartStepView::Done { all_threads_continued: None }
        }
    }

    /// The session after the debuggee was started, if it was due.
    pub open spec fn after_start(self) -> SessionView {
        SessionView { started: self.started || self.configured, ..self }
    }

    /// The session with what a request says about it.
    pub open spec fn told(self, request: ConfigRequest) -> SessionView {
        match request {
            ConfigRequest::Launch(Some(flag)) => SessionView { stop_on_entry: flag, ..self },
            ConfigRequest::Launch(None) => self,
            ConfigRequest::ConfigurationDone => SessionView { configured: true, ..self },
        }
    }
}

/// The way to let the debuggee continue, with all its threads, once the client is told.
pub open spec fn resume_step(process_pid: i32) -> StartStepView {
    StartStepView::AnnounceContinued {
        thread_id: numbers::sign_extended(process_pid),
        all_threads_continued: Some(true),
    }
}

/// What follows a step. A reply that answers no pending step changes nothing.
pub open spec fn after_start_step(
    step: StartStepView,
    reply: StartReplyView,
    process_pid: i32,
) -> StartStepView {
    match (step, reply) {
        (StartStepView::StartDebuggee { stop_on_entry }, StartReplyView::Done) => {
            if stop_on_entry {
                StartStepView::Done { all_threads_continued: None }
            } else {
                resume_step(process_pid)
            }
        },
        (StartStepView::AnnounceContinued { .. }, StartReplyView::Done) => {
            StartStepView::ContinueDebuggee
        },
        (StartStepView::AnnounceContinued { .. }, StartReplyView::NotSent(reason)) => {
            StartStepView::Fail(error::internal("send continued event"@, reason))
        },
        (StartStepView::ContinueDebuggee, StartReplyView::Done) => StartStepView::Done {
            all_threads_continued: Some(true),
        },
        (StartStepView::StartDebuggee { .. }, StartReplyView::Failed(err)) => {
            StartStepView::Fail(err)
        },
        (StartStepView::ContinueDebuggee, StartReplyView::Failed(err)) => StartStepView::Fail(err),
        _ => step,
    }
}

/// Decides what to do next to get the debuggee to run. `process_pid` is the process id of the
/// debuggee as it is now.
pub fn next_start_step(step: StartStep, reply: StartReply, process_pid: i32) -> (r: StartStep)
    ensures
        r@ == after_start_step(step@, reply@, process_pid),
{
    match (step, reply) {
        (StartStep::StartDebuggee { stop_on_entry }, StartReply::Done) => {
            if stop_on_entry {
                StartStep::Done { all_threads_continued: None }
            } else {
                resume(process_pid)
            }
        },
        (StartStep::AnnounceContinued { .. }, StartReply::Done) => StartStep::ContinueDebuggee,
        (StartStep::AnnounceContinued { .. }, StartReply::NotSent(reason)) => {
            StartStep::Fail(error::internal_error("send continued event", reason.as_str()))
        },
        (StartStep::ContinueDebuggee, StartReply::Done) => StartStep::Done {
            all_threads_continued: Some(true),
        },
        (StartStep::StartDebuggee { .. }, StartReply::Failed(err)) => StartStep::Fail(err),
        (StartStep::ContinueDebuggee, StartReply::Failed(err)) => StartStep::Fail(err),
        (step, _) => step,
    }
}

/// Begins to let the debuggee continue.
pub fn resume(process_pid: i32) -> (r: StartStep)
    ensures
        r@ == resume_step(process_pid),
{
    StartStep::AnnounceContinued {
        thread_id: numbers::extend_u64(process_pid),
        all_threads_continued: Some(true),
    }
}

impl SessionState {
    /// Starts the debuggee if the configuration is done and it was not started before.
    pub fn start_if_needed(&mut self) -> (r: StartStep)
        ensures
            r@ == old(self)@.start_step(),
            final(self)@ == old(self)@.after_start(),
    {
        if self.started || !self.configured {
            StartStep::Done { all_threads_continued: None }
        } else {
            self.started = true;
            StartStep::StartDebuggee { stop_on_entry: self.stop_on_entry }
        }
    }

    /// The client is done with the configuration.
    pub fn configuration_done(&mut self) -> (r: StartStep)
        ensures
            r@ == old(self)@.told(ConfigRequest::ConfigurationDone).start_step(),
            final(self)@ == old(self)@.told(ConfigRequest::ConfigurationDone).after_start(),
    {
        self.configured = true;
        self.start_if_needed()
    }

    /// The client asks for a launch or an attach, with this flag, if any.
    pub fn launch_with(&mut self, flag: Option<bool>) -> (r: StartStep)
        ensures
            r@ == old(self)@.told(ConfigRequest::Launch(flag)).start_step(),
            final(self)@ == old(self)@.told(ConfigRequest::Launch(flag)).after_start(),
    {
        if let Some(flag) = flag {
            self.stop_on_entry = flag;
        }
        self.start_if_needed()
    }

    /// The client asks for a launch, with these arguments.
    pub fn launch(&mut self, raw: &serde_json::Value) -> (r: StartStep)
        ensures
            ({
                let request = ConfigRequest::Launch(launch::stop_on_entry_of(*raw));
                &&& r@ == old(self)@.told(request).start_step()
                &&& final(self)@ == old(self)@.told(request).after_start()
            }),
    {
        self.launch_with(launch::parse_stop_on_entry(raw))
    }

    /// The client asks for an attach, with these arguments.
    pub fn attach(&mut self, raw: &serde_json::Value) -> (r: StartStep)
        ensures
            ({
                let request = ConfigRequest::Launch(launch::stop_on_entry_of(*raw));
                &&& r@ == old(self)@.told(request).start_step()
                &&& final(self)@ == old(self)@.told(request).after_start()
            }),
    {
        self.launch_with(launch::parse_stop_on_entry(raw))
    }
}

/// The session after some requests.
pub open spec fn after_requests(session: SessionView, requests: Seq<ConfigRequest>) -> SessionView
    decreases requests.len(),
{
    if requests.len() == 0 {
        session
    } else {
        after_requests(session, requests.drop_last()).told(requests.last()).after_start()
    }
}

/// How often some requests start the debuggee.
pub open spec fn starts(session: SessionView, requests: Seq<ConfigRequest>) -> nat
    decreases requests.len(),
{
    if requests.len() == 0 {
        0
    } else {
        let before = after_requests(session, requests.drop_last());
        starts(session, requests.drop_last()) + if before.told(requests.last()).is_due() {
            1nat
        } else {
            0nat
        }
    }
}

/// Whatever a client asks for, in whatever order, the debuggee is started once if the client
/// says that the configuration is done, and else not at all.
pub proof fn law_started_once(requests: Seq<ConfigRequest>)
    ensures
        starts(SessionView::fresh(), requests) == if requests.contains(
            ConfigRequest::ConfigurationDone,
        ) {
            1nat
        } else {
            0nat
        },
        after_requests(SessionView::fresh(), requests).started == requests.contains(
            ConfigRequest::ConfigurationDone,
        ),
    decreases requests.len(),
{
    lemma_configured(requests);
    if requests.len() > 0 {
        let shorter = requests.drop_last();
        law_started_once(shorter);
        lemma_configured(shorter);
        lemma_contains_split(requests);
    }
}

proof fn lemma_contains_split(requests: Seq<ConfigRequest>)
    requires
        requests.len() > 0,
    ensures
        requests.contains(ConfigRequest::ConfigurationDone) <==> (requests.drop_last().contains(
            ConfigRequest::ConfigurationDone,
        ) || requests.last() == ConfigRequest::ConfigurationDone),
{
    let shorter = requests.drop_last();
    if shorter.contains(ConfigRequest::ConfigurationDone) {
        let i = choose|i: int|
            0 <= i < shorter.len() && shorter[i] == ConfigRequest::ConfigurationDone;
        assert(requests[i] == ConfigRequest::ConfigurationDone);
    }
    if requests.contains(ConfigRequest::ConfigurationDone) && requests.last()
        != ConfigRequest::ConfigurationDone {
        let i = choose|i: int|
            0 <= i < requests.len() && requests[i] == ConfigRequest::ConfigurationDone;
        assert(shorter[i] == ConfigRequest::ConfigurationDone);
    }
}

proof fn lemma_configured(requests: Seq<ConfigRequest>)
    ensures
        ({
            let after = after_requests(SessionView::fresh(), requests);
            &&& after.configured == requests.contains(ConfigRequest::ConfigurationDone)
            &&& after.started == after.configured
        }),
    decreases requests.len(),
{
    if requests.len() > 0 {
        lemma_configured(requests.drop_last());
        lemma_contains_split(requests);
    }
}

/// A thread as a client is told of it.
#[derive(Debug, PartialEq, Eq)]
pub struct Thread {
    pub id: u64,
    pub name: String,
}

/// What a [`Thread`] holds.
pub struct ThreadView {
    pub id: u64,
    pub name: Seq<char>,
}

impl View for Thread {
    type V = ThreadView;

    open spec fn view(&self) -> ThreadView {
        ThreadView { id: self.id, name: self.name@ }
    }
}

pub open spec fn threads_view(threads: Seq<Thread>) -> Seq<ThreadView> {
    Seq::new(threads.len(), |i: int| threads[i]@)
}

/// How a thread is shown.
pub open spec fn thread_of(snapshot: ThreadSnapshot) -> ThreadView {
    ThreadView {
        id: numbers::sign_extended(snapshot.pid),
        name: "Thread "@ + text::decimal(snapshot.pid as int),
    }
}

/// What is known of threads after a list of them; of two threads with one process id the later
/// one counts.
pub open spec fn learned(known: Map<i32, u32>, threads: Seq<ThreadSnapshot>) -> Map<i32, u32>
    decreases threads.len(),
{
    if threads.len() == 0 {
        known
    } else {
        learned(known, threads.drop_last()).insert(threads.last().pid, threads.last().number)
    }
}

/// The outcome of looking up the number of a thread.
#[derive(Debug, PartialEq, Eq)]
pub enum ThreadLookup {
    Found(u32),
    /// The thread is not known yet: list the threads and look again.
    ReadThreads,
    /// There is no such thread.
    Missing(DapError),
}

/// What a [`ThreadLookup`] holds.
pub enum ThreadLookupView {
    Found(u32),
    ReadThreads,
    Missing(DapErrorView),
}

impl View for ThreadLookup {
    type V = ThreadLookupView;

    open spec fn view(&self) -> ThreadLookupView {
        match self {
            ThreadLookup::Found(number) => ThreadLookupView::Found(*number),
            ThreadLookup::ReadThreads => ThreadLookupView::ReadThreads,
            ThreadLookup::Missing(err) => ThreadLookupView::Missing(err@),
        }
    }
}

/// The answer to a request about a thread that is not there.
pub open spec fn missing_thread(pid: i32) -> DapErrorView {
    DapErrorView::Invalid("thread pid "@ + text::decimal(pid as int) + " not found"@)
}

impl SessionView {
    /// The outcome of a lookup, before the threads are listed.
    pub open spec fn lookup_known(self, pid: i32) -> ThreadLookupView {
        if self.thread_map.dom().contains(pid) {
            ThreadLookupView::Found(self.thread_map[pid])
        } else {
            ThreadLookupView::ReadThreads
        }
    }

    /// The outcome of a lookup, once the threads are listed.
    pub open spec fn lookup_listed(self, pid: i32) -> ThreadLookupView {
        if self.thread_map.dom().contains(pid) {
            ThreadLookupView::Found(self.thread_map[pid])
        } else {
            ThreadLookupView::Missing(missing_thread(pid))
        }
    }

    /// The session after the threads were listed to look one up.
    pub open spec fn with_threads(self, threads: Seq<ThreadSnapshot>) -> SessionView {
        SessionView { thread_map: learned(self.thread_map, threads), ..self }
    }

    /// The session after the threads were listed for the client.
    pub open spec fn with_only_threads(self, threads: Seq<ThreadSnapshot>) -> SessionView {
        SessionView { thread_map: learned(Map::empty(), threads), ..self }
    }
}

impl SessionState {
    fn known_thread(&self, pid: i32) -> (r: Option<u32>)
        ensures
            r == if self@.thread_map.dom().contains(pid) {
                Some(self@.thread_map[pid])
            } else {
                None
            },
    {
        broadcast use vstd::std_specs::hash::group_hash_axioms;

        match self.thread_map.get(&pid) {
            Some(number) => Some(*number),
            None => None,
        }
    }

    /// Looks up the number of a thread. Threads are listed only where it is not known: first
    /// call this without a list, and call it again with one if it asks for it.
    pub fn ensure_thread_number(
        &mut self,
        pid: i32,
        snapshots: Option<&Vec<ThreadSnapshot>>,
    ) -> (r: ThreadLookup)
        ensures
            match snapshots {
                None => {
                    &&& r@ == old(self)@.lookup_known(pid)
                    &&& final(self)@ == old(self)@
                },
                Some(threads) => {
                    &&& r@ == old(self)@.with_threads(threads@).lookup_listed(pid)
                    &&& final(self)@ == old(self)@.with_threads(threads@)
                },
            },
    {
        broadcast use vstd::std_specs::hash::group_hash_axioms;

        match snapshots {
            None => match self.known_thread(pid) {
                Some(number) => ThreadLookup::Found(number),
                None => ThreadLookup::ReadThreads,
            },
            Some(threads) => {
                assert(threads@.take(0) =~= Seq::empty());
                for i in 0..threads.len()
                    invariant
                        self@ == old(self)@.with_threads(threads@.take(i as int)),
                {
                    self.thread_map.insert(threads[i].pid, threads[i].number);
                    assert(threads@.take(i + 1).drop_last() =~= threads@.take(i as int));
                    assert(self@ =~= old(self)@.with_threads(threads@.take(i + 1)));
                }
                assert(threads@.take(threads@.len() as int) =~= threads@);
                match self.known_thread(pid) {
                    Some(number) => ThreadLookup::Found(number),
                    None => {
                        let number = text::decimal_signed(pid as i64);
                        ThreadLookup::Missing(
                            DapError::Invalid(
                                "thread pid ".to_owned().concat(number.as_str()).concat(
                                    " not found",
                                ),
                            ),
                        )
                    },
                }
            },
        }
    }

    /// Shows the threads, and remembers these and no others.
    pub fn threads(&mut self, snapshots: &Vec<ThreadSnapshot>) -> (r: Vec<Thread>)
        ensures
            threads_view(r@) == Seq::new(snapshots@.len(), |i: int| thread_of(snapshots@[i])),
            final(self)@ == old(self)@.with_only_threads(snapshots@),
    {
        broadcast use vstd::std_specs::hash::group_hash_axioms;

        let mut threads: Vec<Thread> = Vec::new();
        self.thread_map.clear();
        assert(snapshots@.take(0) =~= Seq::empty());
        assert(self@ =~= old(self)@.with_only_threads(snapshots@.take(0)));
        for i in 0..snapshots.len()
            invariant
                self@ == old(self)@.with_only_threads(snapshots@.take(i as int)),
                threads@.len() == i,
                forall|j: int|
                    0 <= j < i ==> (#[trigger] threads@[j])@ == thread_of(snapshots@[j]),
        {
            let snapshot = snapshots[i];
            self.thread_map.insert(snapshot.pid, snapshot.number);
            assert(snapshots@.take(i + 1).drop_last() =~= snapshots@.take(i as int));
            assert(self@ =~= old(self)@.with_only_threads(snapshots@.take(i + 1)));
            let number = text::decimal_signed(snapshot.pid as i64);
            threads.push(
                Thread {
                    id: numbers::extend_u64(snapshot.pid),
                    name: "Thread ".to_owned().concat(number.as_str()),
                },
            );
        }
        assert(snapshots@.take(snapshots@.len() as int) =~= snapshots@);
        assert(threads_view(threads@) =~= Seq::new(
            snapshots@.len(),
            |i: int| thread_of(snapshots@[i]),
        ));
        threads
    }

    /// Shows the variables under a reference; zero stands for no variables.
    pub fn variables(&mut self, variables_reference: u32) -> (r: Result<Vec<Variable>, DapError>)
        ensures
            ({
                let store = old(self)@.variables;
                match r {
                    Ok(variables) => {
                        if variables_reference == 0 {
                            &&& variables@.len() == 0
                            &&& final(self)@ == old(self)@
                        } else {
                            let nodes = store.entries[variables_reference];
                            &&& store.entries.dom().contains(variables_reference)
                            &&& handles::variables_view(variables@) == handles::shown(store, nodes)
                            &&& final(self)@ == SessionView {
                                variables: handles::store_after_all(store, nodes),
                                ..old(self)@
                            }
                        }
                    },
                    Err(err) => {
                        &&& variables_reference != 0
                        &&& !store.entries.dom().contains(variables_reference)
                        &&& err@ == handles::unknown_handle(variables_reference)
                        &&& final(self)@ == old(self)@
                    },
                }
            }),
            old(self)@.variables.wf() ==> final(self)@.variables.wf(),
    {
        if variables_reference == 0 {
            return Ok(Vec::new());
        }
        self.variables.render(variables_reference)
    }
}

proof fn lemma_learned(known: Map<i32, u32>, threads: Seq<ThreadSnapshot>, pid: i32)
    ensures
        learned(known, threads).dom().contains(pid) <==> (known.dom().contains(pid) || exists|
            i: int,
        |
            0 <= i < threads.len() && (#[trigger] threads[i]).pid == pid),
    decreases threads.len(),
{
    if threads.len() > 0 {
        let shorter = threads.drop_last();
        lemma_learned(known, shorter, pid);
        if threads.last().pid == pid {
            assert(threads[threads.len() - 1].pid == pid);
        }
        if exists|i: int| 0 <= i < shorter.len() && (#[trigger] shorter[i]).pid == pid {
            let i = choose|i: int| 0 <= i < shorter.len() && (#[trigger] shorter[i]).pid == pid;
            assert(threads[i].pid == pid);
        }
        if exists|i: int| 0 <= i < threads.len() && (#[trigger] threads[i]).pid == pid {
            let i = choose|i: int| 0 <= i < threads.len() && (#[trigger] threads[i]).pid == pid;
            if i < shorter.len() {
                assert(shorter[i].pid == pid);
            }
        }
    }
}

/// A thread that the client was shown is known: the debugger need not be asked again. No other
/// thread is.
pub proof fn law_shown_threads_are_known(
    session: SessionView,
    threads: Seq<ThreadSnapshot>,
    pid: i32,
)
    ensures
        session.with_only_threads(threads).lookup_known(pid) is Found <==> exists|i: int|
            0 <= i < threads.len() && (#[trigger] threads[i]).pid == pid,
{
    lemma_learned(Map::empty(), threads, pid);
}

/// Looking up a thread forgets no other one.
pub proof fn law_lookup_keeps_known(session: SessionView, threads: Seq<ThreadSnapshot>, pid: i32)
    requires
        session.lookup_known(pid) is Found,
    ensures
        session.with_threads(threads).lookup_known(pid) is Found,
{
    lemma_learned(session.thread_map, threads, pid);
}

/// The debuggee continues only after the client was told.
pub proof fn law_continue_is_announced(
    step: StartStepView,
    reply: StartReplyView,
    process_pid: i32,
)
    requires
        after_start_step(step, reply, process_pid) is ContinueDebuggee,
        !(step is ContinueDebuggee),
    ensures
        step is AnnounceContinued,
        reply is Done,
{
}

/// A request to continue is announced and answered as one for all threads. It succeeds exactly if
/// both the client is told and the debuggee continues; a client that cannot be told is the reason
/// for an error, and the debuggee is then not let continue.
pub proof fn law_continue_request_is_answered(
    first: StartReplyView,
    second: StartReplyView,
    process_pid: i32,
)
    ensures
        ({
            let begun = resume_step(process_pid);
            let told = after_start_step(begun, first, process_pid);
            let answered = after_start_step(told, second, process_pid);
            &&& begun == StartStepView::AnnounceContinued {
                thread_id: numbers::sign_extended(process_pid),
                all_threads_continued: Some(true),
            }
            &&& told is ContinueDebuggee <==> first is Done
            &&& match first {
                StartReplyView::NotSent(reason) => {
                    &&& told == StartStepView::Fail(
                        error::internal("send continued event"@, reason),
                    )
                    &&& answered == told
                },
                _ => true,
            }
            &&& answered is Done <==> first is Done && second is Done
            &&& answered is Done ==> answered == (StartStepView::Done {
                all_threads_continued: Some(true),
            })
            &&& match (first, second) {
                (StartReplyView::Done, StartReplyView::Failed(err)) => answered
                    == StartStepView::Fail(err),
                _ => true,
            }
        }),
{
}

/// How far a step is from the end, where every step succeeds.
pub open spec fn steps_left(step: StartStepView) -> nat {
    match step {
        StartStepView::StartDebuggee { .. } => 3,
        StartStepView::AnnounceContinued { .. } => 2,
        StartStepView::ContinueDebuggee => 1,
        _ => 0,
    }
}

/// All that is done from a step on, the answer included, where every step succeeds.
pub open spec fn carried_out(step: StartStepView, process_pid: i32) -> Seq<StartStepView>
    decreases steps_left(step),
{
    if steps_left(step) == 0 {
        seq![step]
    } else {
        seq![step] + carried_out(
            after_start_step(step, StartReplyView::Done, process_pid),
            process_pid,
        )
    }
}

/// A debuggee that is to stop on entry is started and no more; any other is let run on, with all
/// its threads, once the client is told.
pub proof fn law_stop_on_entry_is_respected(stop_on_entry: bool, process_pid: i32)
    ensures
        carried_out(StartStepView::StartDebuggee { stop_on_entry }, process_pid)
            == if stop_on_entry {
            seq![
                StartStepView::StartDebuggee { stop_on_entry },
                StartStepView::Done { all_threads_continued: None },
            ]
        } else {
            seq![
                StartStepView::StartDebuggee { stop_on_entry },
                StartStepView::AnnounceContinued {
                    thread_id: numbers::sign_extended(process_pid),
                    all_threads_continued: Some(true),
                },
                StartStepView::ContinueDebuggee,
                StartStepView::Done { all_threads_continued: Some(true) },
            ]
        },
{
    reveal_with_fuel(carried_out, 4);
}

/// In a session with at most one launch request, and any arguments to it, the end of the
/// configuration starts the debuggee. The debuggee is let run on exactly if the arguments say that
/// it is not to stop on entry; the client is told before, and else hears of no continuation. The
/// launch request alone starts nothing.
pub proof fn law_configuration_done_runs_debuggee(
    arguments: Option<serde_json::Value>,
    process_pid: i32,
)
    ensures
        ({
            let fresh = SessionView::fresh();
            let flag = match arguments {
                Some(raw) => launch::stop_on_entry_of(raw),
                None => None,
            };
            let launched = fresh.told(ConfigRequest::Launch(flag));
            let before = match arguments {
                Some(_) => launched.after_start(),
                None => fresh,
            };
            let begun = before.told(ConfigRequest::ConfigurationDone).start_step();
            &&& launched.start_step() == (StartStepView::Done { all_threads_continued: None })
            &&& carried_out(begun, process_pid) == if flag == Some(false) {
                seq![
                    StartStepView::StartDebuggee { stop_on_entry: false },
                    StartStepView::AnnounceContinued {
                        thread_id: numbers::sign_extended(process_pid),
                        all_threads_continued: Some(true),
                    },
                    StartStepView::ContinueDebuggee,
                    StartStepView::Done { all_threads_continued: Some(true) },
                ]
            } else {
                seq![
                    StartStepView::StartDebuggee { stop_on_entry: true },
                    StartStepView::Done { all_threads_continued: None },
                ]
            }
        }),
{
    law_stop_on_entry_is_respected(true, process_pid);
    law_stop_on_entry_is_respected(false, process_pid);
}

/// A thread is shown by its process id, as a number and in its name.
pub proof fn law_thread_is_shown_by_pid(snapshot: ThreadSnapshot)
    ensures
        thread_of(snapshot).id == numbers::sign_extended(snapshot.pid),
        snapshot.pid >= 0 ==> thread_of(snapshot).id == snapshot.pid,
        thread_of(snapshot).name == "Thread "@ + text::decimal(snapshot.pid as int),
{
}

/// Once threads are listed, each is known by the number that was listed for it, and by the last one
/// where it was listed twice. A listing for a lookup changes nothing else; a listing for the client
/// forgets what was not listed.
pub proof fn law_listed_threads_are_found(
    session: SessionView,
    threads: Seq<ThreadSnapshot>,
    i: int,
    pid: i32,
)
    requires
        0 <= i < threads.len() ==> forall|j: int|
            i < j < threads.len() ==> (#[trigger] threads[j]).pid != threads[i].pid,
    ensures
        0 <= i < threads.len() ==> {
            &&& session.with_threads(threads).lookup_known(threads[i].pid)
                == ThreadLookupView::Found(threads[i].number)
            &&& session.with_threads(threads).lookup_listed(threads[i].pid)
                == ThreadLookupView::Found(threads[i].number)
            &&& session.with_only_threads(threads).lookup_known(threads[i].pid)
                == ThreadLookupView::Found(threads[i].number)
        },
        (forall|j: int| 0 <= j < threads.len() ==> (#[trigger] threads[j]).pid != pid) ==> {
            &&& session.with_threads(threads).lookup_known(pid) == session.lookup_known(pid)
            &&& session.with_only_threads(threads).lookup_known(pid)
                == ThreadLookupView::ReadThreads
        },
{
    if 0 <= i < threads.len() {
        lemma_learned_number(session.thread_map, threads, i);
        lemma_learned_number(Map::empty(), threads, i);
    }
    if forall|j: int| 0 <= j < threads.len() ==> (#[trigger] threads[j]).pid != pid {
        lemma_learned_others(session.thread_map, threads, pid);
        lemma_learned_others(Map::empty(), threads, pid);
    }
}

proof fn lemma_learned_number(known: Map<i32, u32>, threads: Seq<ThreadSnapshot>, i: int)
    requires
        0 <= i < threads.len(),
        forall|j: int| i < j < threads.len() ==> (#[trigger] threads[j]).pid != threads[i].pid,
    ensures
        learned(known, threads).dom().contains(threads[i].pid),
        learned(known, threads)[threads[i].pid] == threads[i].number,
    decreases threads.len(),
{
    if i < threads.len() - 1 {
        let shorter = threads.drop_last();
        assert(threads[threads.len() - 1].pid != threads[i].pid);
        assert forall|j: int| i < j < shorter.len() implies (#[trigger] shorter[j]).pid
            != shorter[i].pid by {
            assert(threads[j].pid != threads[i].pid);
        }
        lemma_learned_number(known, shorter, i);
    }
}

proof fn lemma_learned_others(known: Map<i32, u32>, threads: Seq<ThreadSnapshot>, pid: i32)
    requires
        forall|j: int| 0 <= j < threads.len() ==> (#[trigger] threads[j]).pid != pid,
    ensures
        learned(known, threads).dom().contains(pid) <==> known.dom().contains(pid),
        known.dom().contains(pid) ==> learned(known, threads)[pid] == known[pid],
    decreases threads.len(),
{
    if threads.len() > 0 {
        let shorter = threads.drop_last();
        assert(threads[threads.len() - 1].pid != pid);
        assert forall|j: int| 0 <= j < shorter.len() implies (#[trigger] shorter[j]).pid != pid by {
            assert(threads[j].pid != pid);
        }
        lemma_learned_others(known, shorter, pid);
    }
}

/// A lookup that needs no list gives what is known. With a list it gives the same, and a thread
/// that is not there is refused by its process id.
pub proof fn law_missing_thread_is_refused(session: SessionView, pid: i32)
    ensures
        session.lookup_known(pid) is Found || session.lookup_known(pid) is ReadThreads,
        session.lookup_known(pid) is Found ==> session.lookup_listed(pid) == session.lookup_known(
            pid,
        ),
        session.lookup_known(pid) is ReadThreads ==> session.lookup_listed(pid)
            == ThreadLookupView::Missing(
            DapErrorView::Invalid("thread pid "@ + text::decimal(pid as int) + " not found"@),
        ),
        session.lookup_known(pid) is Found <==> session.thread_map.dom().contains(pid),
{
}

/// Listing threads changes what is known of threads and nothing else.
pub proof fn law_listing_keeps_session(session: SessionView, threads: Seq<ThreadSnapshot>)
    ensures
        session.with_threads(threads) == (SessionView {
            thread_map: session.with_threads(threads).thread_map,
            ..session
        }),
        session.with_only_threads(threads) == (SessionView {
            thread_map: session.with_only_threads(threads).thread_map,
            ..session
        }),
{
}

/// A launch or attach request sets the flag that it carries, and leaves it where it carries none;
/// the end of the configuration is noted and leaves the flag. No request changes anything else but
/// whether the debuggee was started, which it never takes back.
pub proof fn law_requests_change_what_they_say(session: SessionView, request: ConfigRequest)
    ensures
        ({
            let after = session.told(request).after_start();
            &&& after == (SessionView {
                stop_on_entry: after.stop_on_entry,
                configured: after.configured,
                started: after.started,
                ..session
            })
            &&& match request {
                ConfigRequest::Launch(Some(flag)) => after.stop_on_entry == flag
                    && after.configured == session.configured,
                ConfigRequest::Launch(None) => after.stop_on_entry == session.stop_on_entry
                    && after.configured == session.configured,
                ConfigRequest::ConfigurationDone => after.stop_on_entry == session.stop_on_entry
                    && after.configured,
            }
            &&& session.started ==> after.started
            &&& after.started <==> session.started || after.configured
        }),
{
}

/// The debuggee is started by a request exactly if the configuration is done and it was not started
/// before, and with the flag as it stands then; any other request is answered at once.
pub proof fn law_start_is_due_once_configured(session: SessionView)
    ensures
        session.start_step() is StartDebuggee <==> session.configured && !session.started,
        session.start_step() is StartDebuggee ==> session.start_step()->stop_on_entry
            == session.stop_on_entry,
        session.start_step() is StartDebuggee ==> session.after_start().started,
        session.after_start().start_step() == (StartStepView::Done { all_threads_continued: None }),
{
}

/// A new session stops on entry, knows no thread, holds no variable and no breakpoint, and waits
/// for its configuration.
pub proof fn law_fresh_session_is_empty()
    ensures
        SessionView::fresh().stop_on_entry,
        !SessionView::fresh().configured,
        !SessionView::fresh().started,
        SessionView::fresh().thread_map == Map::<i32, u32>::empty(),
        SessionView::fresh().variables.entries == Map::<u32, Seq<NodeView>>::empty(),
        SessionView::fresh().breakpoints.len() == 0,
{
}

/// A start that fails is refused with the error of the debugger, and a request that has been
/// answered or refused stays so.
pub proof fn law_failed_start_is_refused(
    step: StartStepView,
    reply: StartReplyView,
    err: DapErrorView,
    process_pid: i32,
)
    ensures
        step is StartDebuggee || step is ContinueDebuggee ==> after_start_step(
            step,
            StartReplyView::Failed(err),
            process_pid,
        ) == StartStepView::Fail(err),
        step is Done || step is Fail ==> after_start_step(step, reply, process_pid) == step,
{
}

/// The view of a session tells all its fields.
pub proof fn law_sessions_are_seen_whole(session: SessionState)
    ensures
        session@.stop_on_entry == session.stop_on_entry,
        session@.configured == session.configured,
        session@.started == session.started,
        session@.thread_map == session.thread_map@,
        session@.variables == session.variables@,
        session@.breakpoints == session.breakpoints@,
{
}

/// The views of a step, of a reply and of a lookup tell which it is and all that it carries.
pub proof fn law_start_steps_are_seen_whole(
    step: StartStep,
    reply: StartReply,
    lookup: ThreadLookup,
)
    ensures
        match step@ {
            StartStepView::StartDebuggee { stop_on_entry } => step is StartDebuggee
                && stop_on_entry == step->stop_on_entry,
            StartStepView::AnnounceContinued {
                thread_id,
                all_threads_continued,
            } => step is AnnounceContinued && thread_id == step->thread_id && all_threads_continued
                == step->AnnounceContinued_all_threads_continued,
            StartStepView::ContinueDebuggee => step is ContinueDebuggee,
            StartStepView::Done { all_threads_continued } => step is Done && all_threads_continued
                == step->Done_all_threads_continued,
            StartStepView::Fail(err) => step is Fail && err == step->Fail_0@,
        },
        match reply@ {
            StartReplyView::Done => reply is Done,
            StartReplyView::Failed(err) => reply is Failed && err == reply->Failed_0@,
            StartReplyView::NotSent(reason) => reply is NotSent && reason == reply->NotSent_0@,
        },
        match lookup@ {
            ThreadLookupView::Found(number) => lookup is Found && number == lookup->Found_0,
            ThreadLookupView::ReadThreads => lookup is ReadThreads,
            ThreadLookupView::Missing(err) => lookup is Missing && err == lookup->Missing_0@,
        },
{
}

/// The view of a shown thread tells its id and its name; that of a list tells all threads in order.
pub proof fn law_threads_are_seen_whole(threads: Seq<Thread>, i: int)
    requires
        0 <= i < threads.len(),
    ensures
        threads_view(threads).len() == threads.len(),
        threads_view(threads)[i].id == threads[i].id,
        threads_view(threads)[i].name == threads[i].name@,
{
}

} // verus!

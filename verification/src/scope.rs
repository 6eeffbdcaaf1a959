//! The scopes of a stack frame: its local variables and its arguments.

use crate::error::{DapError, DapErrorView};
use crate::focus::FrameTarget;
use crate::frame;
use crate::handles;
use crate::handles::{HandlesView, VariableEntry, VariableHandles};
use crate::node;
use crate::node::{NodeView, VariableNode};
use crate::numbers;
use crate::query;
use crate::query::{QueryResult, QueryResultKind, QueryResultView};
use crate::text;
use vstd::prelude::*;
use vstd::string::*;

verus! {

/// What a scope is made of.
#[derive(Clone, Copy, Debug, PartialEq, Eq)]
pub enum ScopeHint {
    Locals,
    Arguments,
}

/// A scope as a client is sent it.
#[derive(Debug, PartialEq, Eq)]
pub struct Scope {
    pub name: String,
    pub presentation_hint: ScopeHint,
    /// How many variables it has.
    pub named_variables: Option<u32>,
    /// The handle of its variables.
    pub variables_reference: u32,
    /// Whether its variables are costly to read.
    pub expensive: bool,
}

/// What a [`Scope`] holds.
pub struct ScopeView {
    pub name: Seq<char>,
    pub presentation_hint: ScopeHint,
    pub named_variables: Option<u32>,
    pub variables_reference: u32,
    pub expensive: bool,
}

impl View for Scope {
    type V = ScopeView;

    open spec fn view(&self) -> ScopeView {
        ScopeView {
            name: self.name@,
            presentation_hint: self.presentation_hint,
            named_variables: self.named_variables,
            variables_reference: self.variables_reference,
            expensive: self.expensive,
        }
    }
}

pub open spec fn scopes_view(scopes: Seq<Scope>) -> Seq<ScopeView> {
    Seq::new(scopes.len(), |i: int| scopes[i]@)
}

/// The store after the variables of both scopes got their handles.
pub open spec fn store_with_scopes(
    store: HandlesView,
    locals: Seq<NodeView>,
    arguments: Seq<NodeView>,
) -> HandlesView {
    store.inserted(locals).inserted(arguments)
}

/// The scopes of a frame with these variables: the local ones first, then the arguments.
pub open spec fn scopes_of(
    store: HandlesView,
    locals: Seq<NodeView>,
    arguments: Seq<NodeView>,
) -> Seq<ScopeView> {
    seq![
        ScopeView {
            name: "Locals"@,
            presentation_hint: ScopeHint::Locals,
            named_variables: Some(numbers::capped(locals.len())),
            variables_reference: store.next_handle(),
            expensive: false,
        },
        ScopeView {
            name: "Arguments"@,
            presentation_hint: ScopeHint::Arguments,
            named_variables: Some(numbers::capped(arguments.len())),
            variables_reference: store.inserted(locals).next_handle(),
            expensive: false,
        },
    ]
}

/// Makes the scopes of a frame from its variables.
pub fn make_scopes(
    store: &mut VariableHandles,
    locals: Vec<VariableNode>,
    arguments: Vec<VariableNode>,
) -> (r: Vec<Scope>)
    ensures
        scopes_view(r@) == scopes_of(
            old(store)@,
            node::nodes_view(locals@),
            node::nodes_view(arguments@),
        ),
        final(store)@ == store_with_scopes(
            old(store)@,
            node::nodes_view(locals@),
            node::nodes_view(arguments@),
        ),
        old(store)@.wf() ==> final(store)@.wf(),
{
    let locals_len: u32 = numbers::cap_u32(locals.len());
    let arguments_len: u32 = numbers::cap_u32(arguments.len());
    let locals_handle: u32 = store.insert(VariableEntry::new(locals));
    let arguments_handle: u32 = store.insert(VariableEntry::new(arguments));
    let mut scopes: Vec<Scope> = Vec::new();
    scopes.push(
        Scope {
            name: "Locals".to_owned(),
            presentation_hint: ScopeHint::Locals,
            named_variables: Some(locals_len),
            variables_reference: locals_handle,
            expensive: false,
        },
    );
    scopes.push(
        Scope {
            name: "Arguments".to_owned(),
            presentation_hint: ScopeHint::Arguments,
            named_variables: Some(arguments_len),
            variables_reference: arguments_handle,
            expensive: false,
        },
    );
    assert(scopes_view(scopes@) =~= scopes_of(
        old(store)@,
        node::nodes_view(locals@),
        node::nodes_view(arguments@),
    ));
    scopes
}

/// What to do next for a request for the scopes of a frame.
#[derive(Debug, PartialEq, Eq)]
pub enum ScopesStep {
    /// Find the number of the thread with this process id.
    FindThread { pid: i32, frame_index: u32 },
    /// Read the local variables, then all arguments, in this frame.
    ReadVariables(FrameTarget),
    /// Send the answer.
    Reply(Vec<Scope>),
    /// Refuse the request.
    Fail(DapError),
}

/// What a [`ScopesStep`] holds.
pub enum ScopesStepView {
    FindThread { pid: i32, frame_index: u32 },
    ReadVariables(FrameTarget),
    Reply(Seq<ScopeView>),
    Fail(DapErrorView),
}

impl View for ScopesStep {
    type V = ScopesStepView;

    open spec fn view(&self) -> ScopesStepView {
        match self {
            ScopesStep::FindThread { pid, frame_index } => ScopesStepView::FindThread {
                pid: *pid,
                frame_index: *frame_index,
            },
            ScopesStep::ReadVariables(target) => ScopesStepView::ReadVariables(*target),
            ScopesStep::Reply(scopes) => ScopesStepView::Reply(scopes_view(scopes@)),
            ScopesStep::Fail(err) => ScopesStepView::Fail(err@),
        }
    }
}

/// How a step went.
#[derive(Debug, PartialEq, Eq)]
pub enum ScopesReply {
    ThreadNumber(u32),
    Variables { locals: Vec<QueryResult>, arguments: Vec<QueryResult> },
    Failed(DapError),
}

/// What a [`ScopesReply`] holds.
pub enum ScopesReplyView {
    ThreadNumber(u32),
    Variables { locals: Seq<QueryResultView>, arguments: Seq<QueryResultView> },
    Failed(DapErrorView),
}

impl View for ScopesReply {
    type V = ScopesReplyView;

    open spec fn view(&self) -> ScopesReplyView {
        match self {
            ScopesReply::ThreadNumber(number) => ScopesReplyView::ThreadNumber(*number),
            ScopesReply::Variables { locals, arguments } => ScopesReplyView::Variables {
                locals: query::results_view(locals@),
                arguments: query::results_view(arguments@),
            },
            ScopesReply::Failed(err) => ScopesReplyView::Failed(err@),
        }
    }
}

/// The first step for the frame with this id.
pub open spec fn first_scopes_step(frame_id: u64) -> ScopesStepView {
    ScopesStepView::FindThread {
        pid: frame::decoded(frame_id).0,
        frame_index: frame::decoded(frame_id).1,
    }
}

/// The variables of the local scope.
pub open spec fn local_nodes(locals: Seq<QueryResultView>) -> Seq<NodeView> {
    query::result_nodes(locals, "local"@)
}

/// The variables of the scope of the arguments.
pub open spec fn argument_nodes(arguments: Seq<QueryResultView>) -> Seq<NodeView> {
    query::result_nodes(arguments, "arg"@)
}

/// What follows a step. A reply that answers no pending step changes nothing.
pub open spec fn after_scopes_step(
    store: HandlesView,
    step: ScopesStepView,
    reply: ScopesReplyView,
) -> ScopesStepView {
    match (step, reply) {
        (
            ScopesStepView::FindThread { pid, frame_index },
            ScopesReplyView::ThreadNumber(number),
        ) => ScopesStepView::ReadVariables(
            FrameTarget { thread_number: number, thread_pid: pid, frame_index },
        ),
        (
            ScopesStepView::ReadVariables(_),
            ScopesReplyView::Variables { locals, arguments },
        ) => ScopesStepView::Reply(
            scopes_of(store, local_nodes(locals), argument_nodes(arguments)),
        ),
        (ScopesStepView::FindThread { .. }, ScopesReplyView::Failed(err)) => {
            ScopesStepView::Fail(err)
        },
        (ScopesStepView::ReadVariables(_), ScopesReplyView::Failed(err)) => {
            ScopesStepView::Fail(err)
        },
        _ => step,
    }
}

/// The store after a reply: handles are given out once the variables are read.
pub open spec fn store_after_scopes_step(
    store: HandlesView,
    step: ScopesStepView,
    reply: ScopesReplyView,
) -> HandlesView {
    match (step, reply) {
        (
            ScopesStepView::ReadVariables(_),
            ScopesReplyView::Variables { locals, arguments },
        ) => store_with_scopes(store, local_nodes(locals), argument_nodes(arguments)),
        _ => store,
    }
}

/// Decides how a request for the scopes of a frame begins.
pub fn begin_scopes(frame_id: u64) -> (r: ScopesStep)
    ensures
        r@ == first_scopes_step(frame_id),
{
    let (pid, frame_index) = frame::decode_frame_id(frame_id);
    ScopesStep::FindThread { pid, frame_index }
}

/// Decides what to do next for a request for the scopes of a frame.
pub fn scopes(store: &mut VariableHandles, step: ScopesStep, reply: ScopesReply) -> (r: ScopesStep)
    ensures
        r@ == after_scopes_step(old(store)@, step@, reply@),
        final(store)@ == store_after_scopes_step(old(store)@, step@, reply@),
        old(store)@.wf() ==> final(store)@.wf(),
{
    match (step, reply) {
        (ScopesStep::FindThread { pid, frame_index }, ScopesReply::ThreadNumber(number)) => {
            ScopesStep::ReadVariables(
                FrameTarget { thread_number: number, thread_pid: pid, frame_index },
            )
        },
        (ScopesStep::ReadVariables(_), ScopesReply::Variables { locals, arguments }) => {
            let locals = query::query_results_to_nodes(&locals, "local");
            let arguments = query::query_results_to_nodes(&arguments, "arg");
            ScopesStep::Reply(make_scopes(store, locals, arguments))
        },
        (ScopesStep::FindThread { .. }, ScopesReply::Failed(err)) => ScopesStep::Fail(err),
        (ScopesStep::ReadVariables(_), ScopesReply::Failed(err)) => ScopesStep::Fail(err),
        (step, _) => step,
    }
}

/// The reference of each scope leads to its variables.
pub proof fn law_scopes_lead_to_variables(
    store: HandlesView,
    locals: Seq<NodeView>,
    arguments: Seq<NodeView>,
)
    requires
        store.wf(),
        handles::has_room(store, 2),
    ensures
        ({
            let after = store_with_scopes(store, locals, arguments);
            let first = scopes_of(store, locals, arguments)[0].variables_reference;
            let second = scopes_of(store, locals, arguments)[1].variables_reference;
            &&& first != 0 && second != 0 && first != second
            &&& after.entries.dom().contains(first) && after.entries[first] == locals
            &&& after.entries.dom().contains(second) && after.entries[second] == arguments
        }),
{
    handles::law_insert_is_fresh(store, locals);
    handles::law_insert_is_fresh(store.inserted(locals), arguments);
}

/// The scopes of a frame that a client was shown are read in that frame.
pub proof fn law_scopes_are_read_in_frame(
    store: HandlesView,
    thread_pid: i32,
    index: u32,
    number: u32,
)
    ensures
        after_scopes_step(
            store,
            first_scopes_step(frame::frame_id(thread_pid, index as u64)),
            ScopesReplyView::ThreadNumber(number),
        ) == ScopesStepView::ReadVariables(
            FrameTarget { thread_number: number, thread_pid, frame_index: index },
        ),
{
    frame::law_frame_id_round_trip(thread_pid, index);
}

/// The scopes hold every variable that the debugger read, in order: the local ones under the first
/// reference, the arguments under the second. Each scope tells how many there are, and each
/// variable shows the value of the result at its position, under the name of that result where it
/// has one.
pub proof fn law_scopes_show_all_that_was_read(
    store: HandlesView,
    target: FrameTarget,
    locals: Seq<QueryResultView>,
    arguments: Seq<QueryResultView>,
)
    requires
        store.wf(),
        handles::has_room(store, 2),
    ensures
        ({
            let step = ScopesStepView::ReadVariables(target);
            let reply = ScopesReplyView::Variables { locals, arguments };
            let answer = after_scopes_step(store, step, reply);
            let after = store_after_scopes_step(store, step, reply);
            let shown = answer->Reply_0;
            let first = after.entries[shown[0].variables_reference];
            let second = after.entries[shown[1].variables_reference];
            &&& answer is Reply
            &&& shown.len() == 2
            &&& shown[0].name == "Locals"@ && shown[0].presentation_hint == ScopeHint::Locals
            &&& shown[1].name == "Arguments"@ && shown[1].presentation_hint == ScopeHint::Arguments
            &&& !shown[0].expensive && !shown[1].expensive
            &&& shown[0].named_variables == Some(numbers::capped(locals.len()))
            &&& shown[1].named_variables == Some(numbers::capped(arguments.len()))
            &&& shown[0].variables_reference != 0 && shown[1].variables_reference != 0
            &&& shown[0].variables_reference != shown[1].variables_reference
            &&& after.entries.dom().contains(shown[0].variables_reference)
            &&& after.entries.dom().contains(shown[1].variables_reference)
            &&& !store.entries.dom().contains(shown[0].variables_reference)
            &&& !store.entries.dom().contains(shown[1].variables_reference)
            &&& first.len() == locals.len()
            &&& second.len() == arguments.len()
            &&& forall|i: int|
                0 <= i < locals.len() ==> {
                    let variable = #[trigger] first[i];
                    &&& variable == node::node_of(
                        variable.name,
                        locals[i].value,
                        variable.evaluate_name,
                    )
                    &&& variable.value_summary == node::summary(locals[i].value)
                    &&& variable.name == if locals[i].name is Some && locals[i].name->0.len() > 0 {
                        locals[i].name
                    } else {
                        Some("local"@ + text::decimal(i))
                    }
                    &&& variable.evaluate_name == if locals[i].kind == QueryResultKind::Root
                        && locals[i].identity.len() > 0 {
                        Some(locals[i].identity)
                    } else {
                        None
                    }
                }
            &&& forall|i: int|
                0 <= i < arguments.len() ==> {
                    let variable = #[trigger] second[i];
                    &&& variable == node::node_of(
                        variable.name,
                        arguments[i].value,
                        variable.evaluate_name,
                    )
                    &&& variable.value_summary == node::summary(arguments[i].value)
                    &&& variable.name == if arguments[i].name is Some && arguments[i].name->0.len()
                        > 0 {
                        arguments[i].name
                    } else {
                        Some("arg"@ + text::decimal(i))
                    }
                    &&& variable.evaluate_name == if arguments[i].kind == QueryResultKind::Root
                        && arguments[i].identity.len() > 0 {
                        Some(arguments[i].identity)
                    } else {
                        None
                    }
                }
        }),
{
    let step = ScopesStepView::ReadVariables(target);
    let reply = ScopesReplyView::Variables { locals, arguments };
    let after = store_after_scopes_step(store, step, reply);
    let shown = after_scopes_step(store, step, reply)->Reply_0;
    let first = after.entries[shown[0].variables_reference];
    let second = after.entries[shown[1].variables_reference];
    law_scopes_lead_to_variables(store, local_nodes(locals), argument_nodes(arguments));
    handles::law_insert_is_fresh(store, local_nodes(locals));
    handles::law_insert_is_fresh(store.inserted(local_nodes(locals)), argument_nodes(arguments));
    if store.entries.dom().contains(shown[1].variables_reference) {
        assert(store.inserted(local_nodes(locals)).entries.dom().contains(
            shown[1].variables_reference,
        ));
    }
    assert forall|i: int| 0 <= i < locals.len() implies {
        let variable = #[trigger] first[i];
        &&& variable == node::node_of(variable.name, locals[i].value, variable.evaluate_name)
        &&& variable.value_summary == node::summary(locals[i].value)
        &&& variable.name == if locals[i].name is Some && locals[i].name->0.len() > 0 {
            locals[i].name
        } else {
            Some("local"@ + text::decimal(i))
        }
        &&& variable.evaluate_name == if locals[i].kind == QueryResultKind::Root
            && locals[i].identity.len() > 0 {
            Some(locals[i].identity)
        } else {
            None
        }
    } by {
        query::law_results_are_shown(locals, "local"@, i);
    }
    assert forall|i: int| 0 <= i < arguments.len() implies {
        let variable = #[trigger] second[i];
        &&& variable == node::node_of(variable.name, arguments[i].value, variable.evaluate_name)
        &&& variable.value_summary == node::summary(arguments[i].value)
        &&& variable.name == if arguments[i].name is Some && arguments[i].name->0.len() > 0 {
            arguments[i].name
        } else {
            Some("arg"@ + text::decimal(i))
        }
        &&& variable.evaluate_name == if arguments[i].kind == QueryResultKind::Root
            && arguments[i].identity.len() > 0 {
            Some(arguments[i].identity)
        } else {
            None
        }
    } by {
        query::law_results_are_shown(arguments, "arg"@, i);
    }
}

/// A request for scopes begins by finding the thread that the frame id names. It is refused with
/// the error that stopped it, and takes no handle before the variables are read.
pub proof fn law_failed_scopes_request_is_refused(
    store: HandlesView,
    frame_id: u64,
    target: FrameTarget,
    err: DapErrorView,
    reply: ScopesReplyView,
)
    ensures
        first_scopes_step(frame_id) is FindThread,
        first_scopes_step(frame_id)->pid == frame::decoded(frame_id).0,
        first_scopes_step(frame_id)->frame_index == frame::decoded(frame_id).1,
        after_scopes_step(store, first_scopes_step(frame_id), ScopesReplyView::Failed(err))
            == ScopesStepView::Fail(err),
        after_scopes_step(
            store,
            ScopesStepView::ReadVariables(target),
            ScopesReplyView::Failed(err),
        ) == ScopesStepView::Fail(err),
        after_scopes_step(store, ScopesStepView::Fail(err), reply) == ScopesStepView::Fail(err),
        store_after_scopes_step(store, first_scopes_step(frame_id), reply) == store,
        store_after_scopes_step(store, ScopesStepView::Fail(err), reply) == store,
        !(reply is Variables) ==> store_after_scopes_step(
            store,
            ScopesStepView::ReadVariables(target),
            reply,
        ) == store,
{
}

/// The view of a scope tells all its fields; that of a list tells all scopes in order.
pub proof fn law_scopes_are_seen_whole(scopes: Seq<Scope>, i: int)
    requires
        0 <= i < scopes.len(),
    ensures
        scopes_view(scopes).len() == scopes.len(),
        scopes_view(scopes)[i].name == scopes[i].name@,
        scopes_view(scopes)[i].presentation_hint == scopes[i].presentation_hint,
        scopes_view(scopes)[i].named_variables == scopes[i].named_variables,
        scopes_view(scopes)[i].variables_reference == scopes[i].variables_reference,
        scopes_view(scopes)[i].expensive == scopes[i].expensive,
{
}

/// The views of a step and of a reply tell which it is and all that it carries.
pub proof fn law_scopes_steps_are_seen_whole(step: ScopesStep, reply: ScopesReply)
    ensures
        match step@ {
            ScopesStepView::FindThread { pid, frame_index } => step is FindThread && pid
                == step->pid && frame_index == step->frame_index,
            ScopesStepView::ReadVariables(target) => step is ReadVariables && target
                == step->ReadVariables_0,
            ScopesStepView::Reply(scopes) => step is Reply && scopes == scopes_view(step->Reply_0@),
            ScopesStepView::Fail(err) => step is Fail && err == step->Fail_0@,
        },
        match reply@ {
            ScopesReplyView::ThreadNumber(number) => reply is ThreadNumber && number
                == reply->ThreadNumber_0,
            ScopesReplyView::Variables { locals, arguments } => {
                &&& reply is Variables
                &&& locals == query::results_view(reply->locals@)
                &&& arguments == query::results_view(reply->arguments@)
            },
            ScopesReplyView::Failed(err) => reply is Failed && err == reply->Failed_0@,
        },
{
}

} // verus!

//! Evaluating an expression for a client.

use crate::error;
use crate::error::{DapError, DapErrorView};
use crate::focus::FrameTarget;
use crate::frame;
use crate::handles;
use crate::handles::{HandlesView, VariableEntry, VariableHandles};
use crate::node;
use crate::node::{NodeView, VariableNode};
use crate::query;
use crate::query::{QueryResult, QueryResultKind, QueryResultView};
use crate::text;
use vstd::prelude::*;
use vstd::string::*;

verus! {

/// The answer to a request for the value of an expression.
#[derive(Debug, PartialEq, Eq)]
pub struct EvaluateResponse {
    pub result: String,
    /// The name of its type.
    pub ty: Option<String>,
    pub memory_reference: Option<String>,
    /// The handle of the results, or zero where there is none.
    pub variables_reference: u32,
}

/// What an [`EvaluateResponse`] holds.
pub struct EvaluateResponseView {
    pub result: Seq<char>,
    pub ty: Option<Seq<char>>,
    pub memory_reference: Option<Seq<char>>,
    pub variables_reference: u32,
}

impl View for EvaluateResponse {
    type V = EvaluateResponseView;

    open spec fn view(&self) -> EvaluateResponseView {
        EvaluateResponseView {
            result: self.result@,
            ty: text::text_view(self.ty),
            memory_reference: text::text_view(self.memory_reference),
            variables_reference: self.variables_reference,
        }
    }
}

/// The results with the expression on the first of them: it is given by the expression, and
/// named by it where it has no name.
pub open spec fn labelled(nodes: Seq<NodeView>, expression: Seq<char>) -> Seq<NodeView> {
    if nodes.len() == 0 {
        nodes
    } else {
        nodes.update(
            0,
            NodeView {
                evaluate_name: Some(expression),
                name: match nodes[0].name {
                    Some(name) => Some(name),
                    None => Some(expression),
                },
                ..nodes[0]
            },
        )
    }
}

/// The answer, which shows the first result; all results are under the handle.
pub open spec fn response_of(store: HandlesView, nodes: Seq<NodeView>) -> EvaluateResponseView {
    if nodes.len() == 0 {
        EvaluateResponseView {
            result: Seq::empty(),
            ty: None,
            memory_reference: None,
            variables_reference: 0,
        }
    } else {
        EvaluateResponseView {
            result: nodes[0].value_summary,
            ty: nodes[0].ty,
            memory_reference: nodes[0].memory_reference,
            variables_reference: store.next_handle(),
        }
    }
}

/// The store after the results, if there are any, got a handle.
pub open spec fn store_with_results(
    store: HandlesView,
    nodes: Seq<NodeView>,
    expression: Seq<char>,
) -> HandlesView {
    if nodes.len() == 0 {
        store
    } else {
        store.inserted(labelled(nodes, expression))
    }
}

/// Answers with the results of an expression.
pub fn make_response(
    store: &mut VariableHandles,
    nodes: Vec<VariableNode>,
    expression: &String,
) -> (r: EvaluateResponse)
    ensures
        r@ == response_of(old(store)@, node::nodes_view(nodes@)),
        final(store)@ == store_with_results(
            old(store)@,
            node::nodes_view(nodes@),
            expression@,
        ),
        old(store)@.wf() ==> final(store)@.wf(),
{
    let ghost views = node::nodes_view(nodes@);
    let mut nodes = nodes;
    if nodes.len() == 0 {
        return EvaluateResponse {
            result: String::new(),
            ty: None,
            memory_reference: None,
            variables_reference: 0,
        };
    }
    let mut first = nodes.remove(0);
    assert(first@ == views[0]);
    first.evaluate_name = Some(expression.clone());
    if first.name.is_none() {
        first.name = Some(expression.clone());
    }
    let result = first.value_summary.clone();
    let ty = text::clone_text(&first.ty);
    let memory_reference = text::clone_text(&first.memory_reference);
    nodes.insert(0, first);
    assert(node::nodes_view(nodes@) =~= labelled(views, expression@));
    let variables_reference: u32 = store.insert(VariableEntry::new(nodes));
    EvaluateResponse { result, ty, memory_reference, variables_reference }
}

/// An expression to evaluate, in a frame or where the debugger looks now.
#[derive(Debug, PartialEq, Eq)]
pub struct EvaluateRequest {
    pub expression: String,
    pub frame_id: Option<u64>,
}

/// What to do next for a request for the value of an expression.
#[derive(Debug, PartialEq, Eq)]
pub enum EvaluateStep {
    /// Parse the expression, and keep it.
    Parse,
    /// Find the number of the thread with this process id.
    FindThread { pid: i32, frame_index: u32 },
    /// Read what the expression gives, in this frame or where the debugger looks now.
    Read { target: Option<FrameTarget> },
    /// Send the answer.
    Reply(EvaluateResponse),
    /// Refuse the request.
    Fail(DapError),
}

/// What an [`EvaluateStep`] holds.
pub enum EvaluateStepView {
    Parse,
    FindThread { pid: i32, frame_index: u32 },
    Read { target: Option<FrameTarget> },
    Reply(EvaluateResponseView),
    Fail(DapErrorView),
}

impl View for EvaluateStep {
    type V = EvaluateStepView;

    open spec fn view(&self) -> EvaluateStepView {
        match self {
            EvaluateStep::Parse => EvaluateStepView::Parse,
            EvaluateStep::FindThread { pid, frame_index } => EvaluateStepView::FindThread {
                pid: *pid,
                frame_index: *frame_index,
            },
            EvaluateStep::Read { target } => EvaluateStepView::Read { target: *target },
            EvaluateStep::Reply(response) => EvaluateStepView::Reply(response@),
            EvaluateStep::Fail(err) => EvaluateStepView::Fail(err@),
        }
    }
}

/// How a step went.
#[derive(Debug, PartialEq, Eq)]
pub enum EvaluateReply {
    Parsed,
    /// The expression does not parse, for these reasons.
    NotParsed(Vec<String>),
    ThreadNumber(u32),
    Results(Vec<QueryResult>),
    Failed(DapError),
}

/// What an [`EvaluateReply`] holds.
pub enum EvaluateReplyView {
    Parsed,
    NotParsed(Seq<Seq<char>>),
    ThreadNumber(u32),
    Results(Seq<QueryResultView>),
    Failed(DapErrorView),
}

impl View for EvaluateReply {
    type V = EvaluateReplyView;

    open spec fn view(&self) -> EvaluateReplyView {
        match self {
            EvaluateReply::Parsed => EvaluateReplyView::Parsed,
            EvaluateReply::NotParsed(errors) => EvaluateReplyView::NotParsed(
                text::texts_view(errors@),
            ),
            EvaluateReply::ThreadNumber(number) => EvaluateReplyView::ThreadNumber(*number),
            EvaluateReply::Results(results) => EvaluateReplyView::Results(
                query::results_view(results@),
            ),
            EvaluateReply::Failed(err) => EvaluateReplyView::Failed(err@),
        }
    }
}

/// The variables that show the results of an expression.
pub open spec fn evaluated_nodes(results: Seq<QueryResultView>) -> Seq<NodeView> {
    query::result_nodes(results, "eval"@)
}

/// What follows a step. A reply that answers no pending step changes nothing.
pub open spec fn after_evaluate_step(
    store: HandlesView,
    frame_id: Option<u64>,
    step: EvaluateStepView,
    reply: EvaluateReplyView,
) -> EvaluateStepView {
    match (step, reply) {
        (EvaluateStepView::Parse, EvaluateReplyView::Parsed) => match frame_id {
            Some(id) => EvaluateStepView::FindThread {
                pid: frame::decoded(id).0,
                frame_index: frame::decoded(id).1,
            },
            None => EvaluateStepView::Read { target: None },
        },
        (EvaluateStepView::Parse, EvaluateReplyView::NotParsed(errors)) => {
            EvaluateStepView::Fail(error::invalid_expression(errors))
        },
        (
            EvaluateStepView::FindThread { pid, frame_index },
            EvaluateReplyView::ThreadNumber(number),
        ) => EvaluateStepView::Read {
            target: Some(FrameTarget { thread_number: number, thread_pid: pid, frame_index }),
        },
        (EvaluateStepView::Read { .. }, EvaluateReplyView::Results(results)) => {
            EvaluateStepView::Reply(response_of(store, evaluated_nodes(results)))
        },
        (EvaluateStepView::FindThread { .. }, EvaluateReplyView::Failed(err)) => {
            EvaluateStepView::Fail(err)
        },
        (EvaluateStepView::Read { .. }, EvaluateReplyView::Failed(err)) => {
            EvaluateStepView::Fail(err)
        },
        _ => step,
    }
}

/// The store after a reply: a handle is given out once there are results.
pub open spec fn store_after_evaluate_step(
    store: HandlesView,
    expression: Seq<char>,
    step: EvaluateStepView,
    reply: EvaluateReplyView,
) -> HandlesView {
    match (step, reply) {
        (EvaluateStepView::Read { .. }, EvaluateReplyView::Results(results)) => {
            store_with_results(store, evaluated_nodes(results), expression)
        },
        _ => store,
    }
}

/// Decides what to do next for a request for the value of an expression. The first step is to
/// parse it.
pub fn evaluate(
    request: &EvaluateRequest,
    store: &mut VariableHandles,
    step: EvaluateStep,
    reply: EvaluateReply,
) -> (r: EvaluateStep)
    ensures
        r@ == after_evaluate_step(old(store)@, request.frame_id, step@, reply@),
        final(store)@ == store_after_evaluate_step(
            old(store)@,
            request.expression@,
            step@,
            reply@,
        ),
        old(store)@.wf() ==> final(store)@.wf(),
{
    match (step, reply) {
        (EvaluateStep::Parse, EvaluateReply::Parsed) => match request.frame_id {
            Some(id) => {
                let (pid, frame_index) = frame::decode_frame_id(id);
                EvaluateStep::FindThread { pid, frame_index }
            },
            None => EvaluateStep::Read { target: None },
        },
        (EvaluateStep::Parse, EvaluateReply::NotParsed(errors)) => {
            EvaluateStep::Fail(error::expression_error(&errors))
        },
        (EvaluateStep::FindThread { pid, frame_index }, EvaluateReply::ThreadNumber(number)) => {
            EvaluateStep::Read {
                target: Some(
                    FrameTarget { thread_number: number, thread_pid: pid, frame_index },
                ),
            }
        },
        (EvaluateStep::Read { .. }, EvaluateReply::Results(results)) => {
            let nodes = query::query_results_to_nodes(&results, "eval");
            EvaluateStep::Reply(make_response(store, nodes, &request.expression))
        },
        (EvaluateStep::FindThread { .. }, EvaluateReply::Failed(err)) => EvaluateStep::Fail(err),
        (EvaluateStep::Read { .. }, EvaluateReply::Failed(err)) => EvaluateStep::Fail(err),
        (step, _) => step,
    }
}

/// The answer to an expression shows the first result, and can be unfolded: its reference leads to
/// the results, of which the first is given by the expression itself, and named by it where it has
/// no name. The reference is zero where there is no result.
pub proof fn law_response_leads_to_results(
    store: HandlesView,
    nodes: Seq<NodeView>,
    expression: Seq<char>,
)
    requires
        store.wf(),
        nodes.len() > 0 ==> handles::has_room(store, 1),
    ensures
        ({
            let after = store_with_results(store, nodes, expression);
            let reference = response_of(store, nodes).variables_reference;
            &&& reference == 0 <==> nodes.len() == 0
            &&& nodes.len() > 0 ==> {
                &&& after.entries.dom().contains(reference)
                &&& after.entries[reference].len() == nodes.len()
                &&& response_of(store, nodes).result == nodes[0].value_summary
                &&& response_of(store, nodes).ty == nodes[0].ty
                &&& response_of(store, nodes).memory_reference == nodes[0].memory_reference
                &&& after.entries[reference][0] == NodeView {
                    name: after.entries[reference][0].name,
                    evaluate_name: Some(expression),
                    ..nodes[0]
                }
                &&& nodes[0].name is Some ==> after.entries[reference][0].name == nodes[0].name
                &&& nodes[0].name is None ==> after.entries[reference][0].name == Some(expression)
                &&& after.entries[reference][0].evaluate_name == Some(expression)
                &&& after.entries[reference][0].value_summary == response_of(store, nodes).result
                &&& after.entries[reference].drop_first() == nodes.drop_first()
            }
        }),
{
    if nodes.len() > 0 {
        handles::law_insert_is_fresh(store, labelled(nodes, expression));
        assert(labelled(nodes, expression).drop_first() =~= nodes.drop_first());
    }
}

/// An expression that does not parse is refused before anything is read, and takes no handle.
pub proof fn law_unparsed_expression_reads_nothing(
    store: HandlesView,
    expression: Seq<char>,
    frame_id: Option<u64>,
    errors: Seq<Seq<char>>,
)
    ensures
        after_evaluate_step(
            store,
            frame_id,
            EvaluateStepView::Parse,
            EvaluateReplyView::NotParsed(errors),
        ) == EvaluateStepView::Fail(error::invalid_expression(errors)),
        store_after_evaluate_step(
            store,
            expression,
            EvaluateStepView::Parse,
            EvaluateReplyView::NotParsed(errors),
        ) == store,
{
}

/// An expression is read in the frame that the request names, and where the debugger looks if it
/// names none.
pub proof fn law_expression_is_read_in_frame(
    store: HandlesView,
    thread_pid: i32,
    index: u32,
    number: u32,
)
    ensures
        ({
            let frame_id = Some(frame::frame_id(thread_pid, index as u64));
            let parsed = after_evaluate_step(
                store,
                frame_id,
                EvaluateStepView::Parse,
                EvaluateReplyView::Parsed,
            );
            after_evaluate_step(store, frame_id, parsed, EvaluateReplyView::ThreadNumber(number))
                == EvaluateStepView::Read {
                target: Some(
                    FrameTarget {
                        thread_number: number,
                        thread_pid,
                        frame_index: index,
                    },
                ),
            }
        }),
        after_evaluate_step(store, None, EvaluateStepView::Parse, EvaluateReplyView::Parsed) == (
        EvaluateStepView::Read { target: None }),
{
    frame::law_frame_id_round_trip(thread_pid, index);
}

/// An expression with results is answered by the first of them, with its value, type and address.
/// All results are under the reference, in order: each shows the value of its result, under the
/// name of that result where it has one. The first is given by the expression itself, the others
/// by their own identity where they have one.
pub proof fn law_first_result_is_answered(
    store: HandlesView,
    request: EvaluateRequest,
    target: Option<FrameTarget>,
    results: Seq<QueryResultView>,
)
    requires
        store.wf(),
        handles::has_room(store, 1),
        results.len() > 0,
    ensures
        ({
            let step = EvaluateStepView::Read { target };
            let reply = EvaluateReplyView::Results(results);
            let answer = after_evaluate_step(store, request.frame_id, step, reply);
            let after = store_after_evaluate_step(store, request.expression@, step, reply);
            let response = answer->Reply_0;
            let listed = after.entries[response.variables_reference];
            &&& answer is Reply
            &&& response.result == node::summary(results[0].value)
            &&& response.ty == Some(results[0].value.ty)
            &&& response.memory_reference is Some <==> results[0].value.location is Some
            &&& results[0].value.location is Some ==> {
                &&& response.memory_reference->0.take(2) == seq!['0', 'x']
                &&& text::number_read(response.memory_reference->0.skip(2), 16)
                    == results[0].value.location->0
            }
            &&& response.variables_reference != 0
            &&& !store.entries.dom().contains(response.variables_reference)
            &&& after.entries.dom().contains(response.variables_reference)
            &&& listed.len() == results.len()
            &&& forall|i: int|
                0 <= i < results.len() ==> {
                    let variable = #[trigger] listed[i];
                    &&& handles::unfolded(variable) == handles::unfolded(
                        node::node_of(
                            variable.name,
                            results[i].value,
                            if results[i].kind == QueryResultKind::Root && results[i].identity.len()
                                > 0 {
                                Some(results[i].identity)
                            } else {
                                None
                            },
                        ),
                    )
                    &&& variable.value_summary == node::summary(results[i].value)
                    &&& variable.ty == Some(results[i].value.ty)
                    &&& variable.memory_reference == node::memory_reference(results[i].value)
                    &&& variable.name == if results[i].name is Some && results[i].name->0.len() > 0 {
                        results[i].name
                    } else {
                        Some("eval"@ + text::decimal(i))
                    }
                    &&& variable.evaluate_name == if i == 0 {
                        Some(request.expression@)
                    } else if results[i].kind == QueryResultKind::Root && results[i].identity.len()
                        > 0 {
                        Some(results[i].identity)
                    } else {
                        None
                    }
                }
        }),
{
    let step = EvaluateStepView::Read { target };
    let reply = EvaluateReplyView::Results(results);
    let after = store_after_evaluate_step(store, request.expression@, step, reply);
    let response = after_evaluate_step(store, request.frame_id, step, reply)->Reply_0;
    let listed = after.entries[response.variables_reference];
    let nodes = evaluated_nodes(results);
    query::law_results_are_shown(results, "eval"@, 0);
    node::law_node_describes_value(nodes[0].name, results[0].value, nodes[0].evaluate_name);
    handles::law_insert_is_fresh(store, labelled(nodes, request.expression@));
    assert forall|i: int| 0 <= i < results.len() implies {
        let variable = #[trigger] listed[i];
        &&& handles::unfolded(variable) == handles::unfolded(
            node::node_of(
                variable.name,
                results[i].value,
                if results[i].kind == QueryResultKind::Root && results[i].identity.len() > 0 {
                    Some(results[i].identity)
                } else {
                    None
                },
            ),
        )
        &&& variable.value_summary == node::summary(results[i].value)
        &&& variable.ty == Some(results[i].value.ty)
        &&& variable.memory_reference == node::memory_reference(results[i].value)
        &&& variable.name == if results[i].name is Some && results[i].name->0.len() > 0 {
            results[i].name
        } else {
            Some("eval"@ + text::decimal(i))
        }
        &&& variable.evaluate_name == if i == 0 {
            Some(request.expression@)
        } else if results[i].kind == QueryResultKind::Root && results[i].identity.len() > 0 {
            Some(results[i].identity)
        } else {
            None
        }
    } by {
        query::law_results_are_shown(results, "eval"@, i);
    }
}

/// An expression without results is answered by an empty text, no type, no address and no
/// reference, and takes no handle.
pub proof fn law_no_result_is_answered_empty(
    store: HandlesView,
    request: EvaluateRequest,
    target: Option<FrameTarget>,
)
    ensures
        ({
            let step = EvaluateStepView::Read { target };
            let reply = EvaluateReplyView::Results(Seq::empty());
            let answer = after_evaluate_step(store, request.frame_id, step, reply);
            &&& answer is Reply
            &&& answer->Reply_0.result.len() == 0
            &&& answer->Reply_0.ty is None
            &&& answer->Reply_0.memory_reference is None
            &&& answer->Reply_0.variables_reference == 0
            &&& store_after_evaluate_step(store, request.expression@, step, reply) == store
        }),
{
}

/// A request for a value is refused with the error that stopped it, and takes no handle before
/// there are results.
pub proof fn law_failed_evaluation_is_refused(
    store: HandlesView,
    expression: Seq<char>,
    frame_id: Option<u64>,
    step: EvaluateStepView,
    reply: EvaluateReplyView,
    err: DapErrorView,
)
    ensures
        step is FindThread || step is Read ==> after_evaluate_step(
            store,
            frame_id,
            step,
            EvaluateReplyView::Failed(err),
        ) == EvaluateStepView::Fail(err),
        step is Fail || step is Reply ==> after_evaluate_step(store, frame_id, step, reply) == step,
        !(step is Read && reply is Results) ==> store_after_evaluate_step(
            store,
            expression,
            step,
            reply,
        ) == store,
{
}

/// The views of an answer, of a step and of a reply tell which it is and all that it carries.
pub proof fn law_evaluations_are_seen_whole(
    response: EvaluateResponse,
    step: EvaluateStep,
    reply: EvaluateReply,
)
    ensures
        response@.result == response.result@,
        response@.ty == text::text_view(response.ty),
        response@.memory_reference == text::text_view(response.memory_reference),
        response@.variables_reference == response.variables_reference,
        match step@ {
            EvaluateStepView::Parse => step is Parse,
            EvaluateStepView::FindThread { pid, frame_index } => step is FindThread && pid
                == step->pid && frame_index == step->frame_index,
            EvaluateStepView::Read { target } => step is Read && target == step->target,
            EvaluateStepView::Reply(response) => step is Reply && response == step->Reply_0@,
            EvaluateStepView::Fail(err) => step is Fail && err == step->Fail_0@,
        },
        match reply@ {
            EvaluateReplyView::Parsed => reply is Parsed,
            EvaluateReplyView::NotParsed(errors) => reply is NotParsed && errors
                == text::texts_view(reply->NotParsed_0@),
            EvaluateReplyView::ThreadNumber(number) => reply is ThreadNumber && number
                == reply->ThreadNumber_0,
            EvaluateReplyView::Results(results) => reply is Results && results
                == query::results_view(reply->Results_0@),
            EvaluateReplyView::Failed(err) => reply is Failed && err == reply->Failed_0@,
        },
{
}

} // verus!

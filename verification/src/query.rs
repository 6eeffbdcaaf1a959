//! What the debugger answers to a query, turned into variables.

use crate::node;
use crate::node::{NodeView, VariableNode};
use crate::text;
use crate::value::{DebugValue, ValueView};
use vstd::prelude::*;
use vstd::string::*;

verus! {

/// Whether a result is a variable of the program or was computed from one.
#[derive(Clone, Copy, Debug, PartialEq, Eq)]
pub enum QueryResultKind {
    Root,
    Expression,
}

/// One result of a query.
#[derive(Debug, PartialEq, Eq)]
pub struct QueryResult {
    pub kind: QueryResultKind,
    /// The name of the variable, where it has one.
    pub name: Option<String>,
    /// The full identity of the variable, in the syntax of expressions.
    pub identity: String,
    pub value: DebugValue,
}

/// What a [`QueryResult`] holds.
pub struct QueryResultView {
    pub kind: QueryResultKind,
    pub name: Option<Seq<char>>,
    pub identity: Seq<char>,
    pub value: ValueView,
}

impl View for QueryResult {
    type V = QueryResultView;

    open spec fn view(&self) -> QueryResultView {
        QueryResultView {
            kind: self.kind,
            name: text::text_view(self.name),
            identity: self.identity@,
            value: self.value@,
        }
    }
}

pub open spec fn results_view(results: Seq<QueryResult>) -> Seq<QueryResultView> {
    Seq::new(results.len(), |i: int| results[i]@)
}

/// The name of a result without a name of its own.
pub open spec fn fallback_name(prefix: Seq<char>, index: nat) -> Seq<char> {
    prefix + text::decimal(index as int)
}

/// How the result at `index` is named.
pub open spec fn result_name(result: QueryResultView, prefix: Seq<char>, index: nat) -> Seq<char> {
    match result.name {
        Some(name) if name.len() > 0 => name,
        _ => fallback_name(prefix, index),
    }
}

/// The expression that gives a result: the identity of a variable of the program.
pub open spec fn result_path(result: QueryResultView) -> Option<Seq<char>> {
    if result.kind == QueryResultKind::Root && result.identity.len() > 0 {
        Some(result.identity)
    } else {
        None
    }
}

/// The variable that shows the result at `index`.
pub open spec fn result_node(result: QueryResultView, prefix: Seq<char>, index: nat) -> NodeView {
    node::node_of(
        Some(result_name(result, prefix, index)),
        result.value,
        result_path(result),
    )
}

/// The variables that show the results of a query, in order.
pub open spec fn result_nodes(results: Seq<QueryResultView>, prefix: Seq<char>) -> Seq<NodeView> {
    Seq::new(results.len(), |i: int| result_node(results[i], prefix, i as nat))
}

/// Shows one result of a query as a variable.
pub fn query_result_to_node(
    result: &QueryResult,
    fallback_prefix: &str,
    index: usize,
) -> (r: VariableNode)
    ensures
        r@ == result_node(result@, fallback_prefix@, index as nat),
{
    let is_root = match result.kind {
        QueryResultKind::Root => true,
        QueryResultKind::Expression => false,
    };
    let eval_name = if is_root && !result.identity.as_str().is_empty() {
        Some(result.identity.clone())
    } else {
        None
    };
    let is_named = match &result.name {
        Some(name) => !name.as_str().is_empty(),
        None => false,
    };
    let name = if is_named {
        text::clone_text(&result.name)
    } else {
        let number = text::decimal_unsigned(index as u64);
        Some(fallback_prefix.to_owned().concat(number.as_str()))
    };
    node::make_variable_node(name, &result.value, eval_name)
}

/// Shows the results of a query as variables.
pub fn query_results_to_nodes(results: &Vec<QueryResult>, fallback_prefix: &str) -> (r: Vec<
    VariableNode,
>)
    ensures
        node::nodes_view(r@) == result_nodes(results_view(results@), fallback_prefix@),
{
    let mut nodes: Vec<VariableNode> = Vec::new();
    for i in 0..results.len()
        invariant
            nodes@.len() == i,
            forall|j: int|
                0 <= j < i ==> (#[trigger] nodes@[j]).view() == result_node(
                    results@[j]@,
                    fallback_prefix@,
                    j as nat,
                ),
    {
        nodes.push(query_result_to_node(&results[i], fallback_prefix, i));
    }
    assert(node::nodes_view(nodes@) =~= result_nodes(results_view(results@), fallback_prefix@));
    nodes
}

/// Results without a name of their own are told apart: two of them have different names.
pub proof fn law_fallback_names_differ(prefix: Seq<char>, a: nat, b: nat)
    requires
        a != b,
    ensures
        fallback_name(prefix, a) != fallback_name(prefix, b),
{
    if fallback_name(prefix, a) == fallback_name(prefix, b) {
        assert(fallback_name(prefix, a).skip(prefix.len() as int) =~= text::decimal(a as int));
        assert(fallback_name(prefix, b).skip(prefix.len() as int) =~= text::decimal(b as int));
        text::law_decimal_injective(a as int, b as int);
    }
}

/// Every result of a query is shown, under a name.
pub proof fn law_results_are_named(results: Seq<QueryResultView>, prefix: Seq<char>, i: int)
    requires
        0 <= i < results.len(),
    ensures
        result_nodes(results, prefix).len() == results.len(),
        result_nodes(results, prefix)[i].name is Some,
        result_nodes(results, prefix)[i].name->0.len() > 0,
{
}

/// A result is shown as the variable that it is, at its own position: under its name, or under
/// the prefix and the position where it has none, with its value, type and address. It is given by
/// its identity exactly if it is a variable of the program with one.
pub proof fn law_results_are_shown(results: Seq<QueryResultView>, prefix: Seq<char>, i: int)
    requires
        0 <= i < results.len(),
    ensures
        ({
            let nodes = result_nodes(results, prefix);
            let result = results[i];
            &&& nodes.len() == results.len()
            &&& nodes[i] == node::node_of(nodes[i].name, result.value, nodes[i].evaluate_name)
            &&& result.name is Some && result.name->0.len() > 0 ==> nodes[i].name == result.name
            &&& result.name is None || result.name->0.len() == 0 ==> nodes[i].name == Some(
                prefix + text::decimal(i),
            )
            &&& result.kind == QueryResultKind::Root && result.identity.len() > 0
                ==> nodes[i].evaluate_name == Some(result.identity)
            &&& result.kind == QueryResultKind::Expression || result.identity.len() == 0
                ==> nodes[i].evaluate_name is None
            &&& nodes[i].value_summary == node::summary(result.value)
            &&& nodes[i].ty == Some(result.value.ty)
        }),
{
    node::law_node_describes_value(
        result_nodes(results, prefix)[i].name,
        results[i].value,
        result_nodes(results, prefix)[i].evaluate_name,
    );
}

/// The view of a result tells all its fields; that of a list tells all results in order.
pub proof fn law_results_are_seen_whole(results: Seq<QueryResult>, i: int)
    requires
        0 <= i < results.len(),
    ensures
        results_view(results).len() == results.len(),
        results_view(results)[i].kind == results[i].kind,
        results_view(results)[i].name == text::text_view(results[i].name),
        results_view(results)[i].identity == results[i].identity@,
        results_view(results)[i].value == results[i].value@,
{
}

} // verus!

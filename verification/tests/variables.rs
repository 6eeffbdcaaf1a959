use bugstalker_dap::error::DapError;
use bugstalker_dap::handles::{Variable, VariableEntry, VariableHandles};
use bugstalker_dap::node::{
    make_variable_node, summarize_value, ChildKind, CollectionKind, ValueChildren, VariableNode,
};
use bugstalker_dap::query::{
    query_result_to_node, query_results_to_nodes, QueryResult, QueryResultKind,
};
use bugstalker_dap::value::{ArrayItem, DebugValue, Member, ValueLayout};

fn text(s: &str) -> Option<String> {
    Some(s.to_string())
}

fn value(ty: &str, layout: Option<ValueLayout>) -> DebugValue {
    DebugValue { ty: ty.to_string(), location: None, layout }
}

fn scalar(ty: &str, rendered: &str) -> DebugValue {
    value(ty, Some(ValueLayout::PreRendered(rendered.to_string())))
}

fn point() -> DebugValue {
    let mut point = value(
        "Point",
        Some(ValueLayout::Structure(vec![
            Member { field_name: text("x"), value: scalar("i32", "1") },
            Member { field_name: None, value: scalar("i32", "2") },
        ])),
    );
    point.location = Some(0x1000);
    point
}

fn pairs() -> DebugValue {
    value(
        "HashMap<String, i32>",
        Some(ValueLayout::Entries(vec![
            (scalar("String", "one"), scalar("i32", "1")),
            (scalar("String", ""), scalar("i32", "2")),
        ])),
    )
}

fn children(value: DebugValue, eval_name: Option<&str>) -> (Vec<VariableNode>, CollectionKind) {
    let expanded = ValueChildren { value, eval_name: eval_name.map(|s| s.to_string()) }.expand();
    (expanded.nodes, expanded.kind)
}

fn leaf(name: &str) -> VariableNode {
    make_variable_node(text(name), &scalar("i32", "5"), None)
}

#[test]
fn summaries() {
    assert_eq!(summarize_value(&scalar("i32", "42")), "42");
    assert_eq!(summarize_value(&value("*const u8", Some(ValueLayout::Referential(0xff)))), "0xff");
    assert_eq!(summarize_value(&point()), "Point {…}");
    let items = vec![ArrayItem { index: 0, value: scalar("u8", "1") }];
    assert_eq!(summarize_value(&value("[u8; 1]", Some(ValueLayout::IndexedList(items)))), "[u8; 1] [1]");
    assert_eq!(summarize_value(&value("Set", Some(ValueLayout::NonIndexedList(vec![])))), "Set [0]");
    assert_eq!(summarize_value(&pairs()), "HashMap<String, i32> [2]");
    let wrapped = value("Some", Some(ValueLayout::Wrapped(Box::new(scalar("i32", "3")))));
    assert_eq!(summarize_value(&wrapped), "Some(3)");
    let twice = value("Ok", Some(ValueLayout::Wrapped(Box::new(wrapped))));
    assert_eq!(summarize_value(&twice), "Ok(Some(3))");
    assert_eq!(summarize_value(&value("Opaque", None)), "Opaque");
}

#[test]
fn node_of_scalar() {
    let mut number = scalar("i32", "42");
    number.location = Some(0x7ffe);
    let node = make_variable_node(text("n"), &number, text("n"));
    assert_eq!(
        node,
        VariableNode {
            name: text("n"),
            ty: text("i32"),
            evaluate_name: text("n"),
            value_summary: "42".to_string(),
            memory_reference: text("0x7ffe"),
            children: ChildKind::Leaf,
        }
    );
}

#[test]
fn pointers_and_unknown_layouts_are_leaves() {
    let pointer = value("&u8", Some(ValueLayout::Referential(16)));
    assert_eq!(make_variable_node(None, &pointer, None).children, ChildKind::Leaf);
    assert_eq!(make_variable_node(None, &value("X", None), None).children, ChildKind::Leaf);
}

#[test]
fn structure_is_deferred() {
    let node = make_variable_node(text("p"), &point(), text("p"));
    assert_eq!(node.memory_reference, text("0x1000"));
    match node.children {
        ChildKind::Deferred(deferred) => {
            assert_eq!(deferred.value, point());
            assert_eq!(deferred.eval_name, text("p"));
        }
        _ => panic!("not deferred"),
    }
}

#[test]
fn wrapped_value_keeps_expression() {
    let wrapped = value("Box", Some(ValueLayout::Wrapped(Box::new(scalar("i32", "3")))));
    let node = make_variable_node(text("b"), &wrapped, text("b"));
    match node.children {
        ChildKind::Precomputed(expanded) => {
            assert_eq!(expanded.kind, CollectionKind::Named);
            assert_eq!(expanded.nodes, vec![make_variable_node(None, &scalar("i32", "3"), text("b"))]);
        }
        _ => panic!("not precomputed"),
    }
}

#[test]
fn expand_structure() {
    let (nodes, kind) = children(point(), Some("p"));
    assert_eq!(kind, CollectionKind::Named);
    assert_eq!(nodes.len(), 2);
    assert_eq!(nodes[0].name, text("x"));
    assert_eq!(nodes[0].evaluate_name, text("p.x"));
    assert_eq!(nodes[1].name, None);
    assert_eq!(nodes[1].evaluate_name, None);
    let (nodes, _) = children(point(), None);
    assert_eq!(nodes[0].evaluate_name, None);
}

#[test]
fn expand_indexed_list() {
    let items = vec![
        ArrayItem { index: -1, value: scalar("u8", "7") },
        ArrayItem { index: 12, value: scalar("u8", "8") },
    ];
    let (nodes, kind) = children(value("arr", Some(ValueLayout::IndexedList(items))), Some("a"));
    assert_eq!(kind, CollectionKind::Indexed);
    assert_eq!(nodes[0].name, text("[-1]"));
    assert_eq!(nodes[0].evaluate_name, text("a[-1]"));
    assert_eq!(nodes[1].name, text("[12]"));
    assert_eq!(nodes[1].evaluate_name, text("a[12]"));
    assert_ne!(nodes[0].name, nodes[1].name);
}

#[test]
fn expand_non_indexed_list() {
    let list = ValueLayout::NonIndexedList(vec![scalar("u8", "7"), scalar("u8", "8")]);
    let (nodes, kind) = children(value("set", Some(list)), Some("s"));
    assert_eq!(kind, CollectionKind::Indexed);
    assert_eq!(nodes[1].name, text("[1]"));
    assert_eq!(nodes[1].evaluate_name, text("s[1]"));
    assert_eq!(nodes[1].value_summary, "8");
}

#[test]
fn expand_entries() {
    let (nodes, kind) = children(pairs(), Some("m"));
    assert_eq!(kind, CollectionKind::Named);
    assert_eq!(nodes[0].name, text("one"));
    assert_eq!(nodes[0].ty, text("i32"));
    assert_eq!(nodes[0].value_summary, "1");
    assert_eq!(nodes[0].evaluate_name, None);
    assert_eq!(nodes[1].name, text("[1]"));
    match &nodes[0].children {
        ChildKind::Precomputed(expanded) => {
            assert_eq!(expanded.kind, CollectionKind::Named);
            assert_eq!(
                expanded.nodes,
                vec![
                    make_variable_node(text("key"), &scalar("String", "one"), None),
                    make_variable_node(text("value"), &scalar("i32", "1"), None),
                ]
            );
        }
        _ => panic!("not precomputed"),
    }
}

#[test]
fn expand_without_parts() {
    let (nodes, kind) = children(scalar("i32", "1"), Some("n"));
    assert!(nodes.is_empty());
    assert_eq!(kind, CollectionKind::Named);
}

#[test]
fn counts() {
    assert_eq!(CollectionKind::Named.counts(3), (Some(3), None));
    assert_eq!(CollectionKind::Indexed.counts(3), (None, Some(3)));
    assert_eq!(CollectionKind::Named.counts(usize::MAX), (Some(u32::MAX), None));
}

fn result(kind: QueryResultKind, name: Option<&str>, identity: &str) -> QueryResult {
    QueryResult {
        kind,
        name: name.map(|s| s.to_string()),
        identity: identity.to_string(),
        value: scalar("i32", "1"),
    }
}

#[test]
fn query_results() {
    let node = query_result_to_node(&result(QueryResultKind::Root, Some("x"), "ns::x"), "local", 0);
    assert_eq!(node.name, text("x"));
    assert_eq!(node.evaluate_name, text("ns::x"));
    let node = query_result_to_node(&result(QueryResultKind::Expression, Some("x"), "ns::x"), "arg", 0);
    assert_eq!(node.evaluate_name, None);
    let node = query_result_to_node(&result(QueryResultKind::Root, Some(""), ""), "arg", 12);
    assert_eq!(node.name, text("arg12"));
    assert_eq!(node.evaluate_name, None);
    let unnamed = vec![
        result(QueryResultKind::Root, None, ""),
        result(QueryResultKind::Root, None, ""),
    ];
    let nodes = query_results_to_nodes(&unnamed, "eval");
    assert_eq!(nodes[0].name, text("eval0"));
    assert_eq!(nodes[1].name, text("eval1"));
}

#[test]
fn handles_are_given_out_in_order() {
    let mut store = VariableHandles::default();
    assert_eq!(store.insert(VariableEntry::new(vec![leaf("a")])), 1);
    assert_eq!(store.insert(VariableEntry::new(vec![leaf("b")])), 2);
    assert_eq!(store.render(1).unwrap()[0].name, "a");
    assert_eq!(store.render(2).unwrap()[0].name, "b");
    assert_eq!(store.insert(VariableEntry::new(vec![])), 3);
    assert_eq!(store.render(3).unwrap(), vec![]);
}

#[test]
fn unknown_handle_is_refused() {
    let mut store = VariableHandles::default();
    assert_eq!(
        store.render(7),
        Err(DapError::Invalid("unknown variablesReference 7".to_string()))
    );
}

#[test]
fn clear_forgets_handles() {
    let mut store = VariableHandles::default();
    store.insert(VariableEntry::new(vec![leaf("a")]));
    store.insert(VariableEntry::new(vec![leaf("b")]));
    store.clear();
    assert!(store.render(1).is_err());
    assert!(store.render(2).is_err());
    assert_eq!(store.insert(VariableEntry::new(vec![leaf("c")])), 1);
}

#[test]
fn rendered_leaf() {
    let mut store = VariableHandles::default();
    let mut node = leaf("a");
    node.name = None;
    let variable = node.into_dap_variable(&mut store);
    assert_eq!(
        variable,
        Variable {
            name: String::new(),
            value: "5".to_string(),
            ty: text("i32"),
            evaluate_name: None,
            memory_reference: None,
            named_variables: None,
            indexed_variables: None,
            variables_reference: 0,
        }
    );
    assert_eq!(store.insert(VariableEntry::new(vec![])), 1);
}

#[test]
fn empty_list_has_no_reference() {
    let mut store = VariableHandles::default();
    let list = value("Vec<u8>", Some(ValueLayout::NonIndexedList(vec![])));
    let variable = make_variable_node(text("v"), &list, text("v")).into_dap_variable(&mut store);
    assert_eq!(variable.variables_reference, 0);
    assert_eq!(variable.indexed_variables, None);
    assert_eq!(variable.value, "Vec<u8> [0]");
}

#[test]
fn references_lead_to_children() {
    let mut store = VariableHandles::default();
    let nodes = vec![
        make_variable_node(text("p"), &point(), text("p")),
        leaf("n"),
        make_variable_node(text("m"), &pairs(), text("m")),
    ];
    let handle = store.insert(VariableEntry::new(nodes));
    let shown = store.render(handle).unwrap();
    assert_eq!(shown.len(), 3);
    assert_eq!(shown[0].variables_reference, 2);
    assert_eq!(shown[0].named_variables, Some(2));
    assert_eq!(shown[0].indexed_variables, None);
    assert_eq!(shown[1].variables_reference, 0);
    assert_eq!(shown[2].variables_reference, 3);

    let members = store.render(2).unwrap();
    assert_eq!(members.len(), 2);
    assert_eq!(members[0].name, "x");
    assert_eq!(members[0].evaluate_name, text("p.x"));
    assert_eq!(members[1].name, "");

    let entries = store.render(3).unwrap();
    assert_eq!(entries[0].name, "one");
    assert_eq!(entries[0].named_variables, Some(2));
    let pair = store.render(entries[0].variables_reference).unwrap();
    assert_eq!(pair[0].name, "key");
    assert_eq!(pair[0].value, "one");
    assert_eq!(pair[1].name, "value");
    assert_eq!(pair[1].value, "1");
}

#[test]
fn rendering_again_keeps_earlier_references() {
    let mut store = VariableHandles::default();
    let handle = store.insert(VariableEntry::new(vec![make_variable_node(text("p"), &point(), None)]));
    let first = store.render(handle).unwrap();
    let second = store.render(handle).unwrap();
    assert_ne!(first[0].variables_reference, second[0].variables_reference);
    assert_eq!(
        store.render(first[0].variables_reference).unwrap(),
        store.render(second[0].variables_reference).unwrap()
    );
}

#[test]
fn clones_are_equal() {
    let node = make_variable_node(text("m"), &pairs(), text("m"));
    assert_eq!(node.clone(), node);
    assert_eq!(point().clone(), point());
    let entry = VariableEntry::new(vec![node, leaf("x")]);
    assert_eq!(entry.clone(), entry);
}

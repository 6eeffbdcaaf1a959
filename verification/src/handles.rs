//! The handles under which a client asks for the variables below a variable.

use crate::error::{DapError, DapErrorView};
use crate::node;
use crate::node::{
    ChildKind, ChildView, ChildrenView, CollectionKind, ExpandedChildren, NodeView, VariableNode,
};
use crate::numbers;
use crate::text;
use crate::value::{LayoutView, ValueView};
use std::collections::HashMap;
use vstd::prelude::*;
use vstd::string::*;

verus! {

/// A variable as a client is sent it.
#[derive(Debug, PartialEq, Eq)]
pub struct Variable {
    pub name: String,
    pub value: String,
    /// The name of its type.
    pub ty: Option<String>,
    /// The expression that gives it, where there is one.
    pub evaluate_name: Option<String>,
    pub memory_reference: Option<String>,
    /// How many children it has by name.
    pub named_variables: Option<u32>,
    /// How many children it has by index.
    pub indexed_variables: Option<u32>,
    /// The handle of its children, or zero where it has none.
    pub variables_reference: u32,
}

/// What a [`Variable`] holds.
pub struct VariableView {
    pub name: Seq<char>,
    pub value: Seq<char>,
    pub ty: Option<Seq<char>>,
    pub evaluate_name: Option<Seq<char>>,
    pub memory_reference: Option<Seq<char>>,
    pub named_variables: Option<u32>,
    pub indexed_variables: Option<u32>,
    pub variables_reference: u32,
}

impl View for Variable {
    type V = VariableView;

    open spec fn view(&self) -> VariableView {
        VariableView {
            name: self.name@,
            value: self.value@,
            ty: text::text_view(self.ty),
            evaluate_name: text::text_view(self.evaluate_name),
            memory_reference: text::text_view(self.memory_reference),
            named_variables: self.named_variables,
            indexed_variables: self.indexed_variables,
            variables_reference: self.variables_reference,
        }
    }
}

pub open spec fn variables_view(variables: Seq<Variable>) -> Seq<VariableView> {
    Seq::new(variables.len(), |i: int| variables[i]@)
}

/// Variables that are shown together.
#[derive(Debug, PartialEq, Eq)]
pub struct VariableEntry {
    pub variables: Vec<VariableNode>,
}

impl View for VariableEntry {
    type V = Seq<NodeView>;

    open spec fn view(&self) -> Seq<NodeView> {
        node::nodes_view(self.variables@)
    }
}

impl VariableEntry {
    pub fn new(variables: Vec<VariableNode>) -> (r: Self)
        ensures
            r@ == node::nodes_view(variables@),
    {
        VariableEntry { variables }
    }
}

impl Clone for VariableEntry {
    fn clone(&self) -> (r: Self)
        ensures
            r@ == self@,
    {
        VariableEntry { variables: node::duplicate_nodes(&self.variables) }
    }
}

/// Hands out a handle for each group of variables, until the debuggee runs on.
pub struct VariableHandles {
    next_id: u32,
    entries: HashMap<u32, VariableEntry>,
}

/// What a [`VariableHandles`] holds.
#[verifier::ext_equal]
pub struct HandlesView {
    pub next_id: u32,
    pub entries: Map<u32, Seq<NodeView>>,
}

impl HandlesView {
    /// No variables, and no handle given out.
    pub open spec fn unused() -> HandlesView {
        HandlesView { next_id: 0, entries: Map::empty() }
    }

    /// The handles in use are not zero, and lie below the next one; only the last handle of all
    /// may be the next one and in use.
    pub open spec fn wf(self) -> bool {
        forall|handle: u32| #[trigger]
            self.entries.dom().contains(handle) ==> {
                &&& 1 <= handle
                &&& handle < self.next_id || (handle == u32::MAX && self.next_id == u32::MAX)
            }
    }

    /// The handle for the next group of variables.
    pub open spec fn next_handle(self) -> u32 {
        if self.next_id > 1 {
            self.next_id
        } else {
            1
        }
    }

    /// The store after a group of variables got the next handle.
    pub open spec fn inserted(self, nodes: Seq<NodeView>) -> HandlesView {
        HandlesView {
            next_id: if self.next_handle() < u32::MAX {
                (self.next_handle() + 1) as u32
            } else {
                u32::MAX
            },
            entries: self.entries.insert(self.next_handle(), nodes),
        }
    }

    /// The store after the debuggee ran on.
    pub open spec fn cleared(self) -> HandlesView {
        HandlesView { next_id: 1, entries: Map::empty() }
    }
}

/// The variables below a variable.
pub open spec fn unfolded(node: NodeView) -> ChildrenView {
    match node.children {
        ChildView::Leaf => ChildrenView { nodes: Seq::empty(), kind: CollectionKind::Named },
        ChildView::Deferred(value, eval_name) => node::children_of(value, eval_name),
        ChildView::Precomputed(children) => children,
    }
}

/// The variable that a client is sent for `node`, given the handle of its children.
pub open spec fn variable_of(node: NodeView, handle: u32) -> VariableView {
    let children = unfolded(node);
    let has_children = children.nodes.len() > 0;
    VariableView {
        name: match node.name {
            Some(name) => name,
            None => Seq::empty(),
        },
        value: node.value_summary,
        ty: node.ty,
        evaluate_name: node.evaluate_name,
        memory_reference: node.memory_reference,
        named_variables: if has_children {
            children.kind.counts_of(children.nodes.len()).0
        } else {
            None
        },
        indexed_variables: if has_children {
            children.kind.counts_of(children.nodes.len()).1
        } else {
            None
        },
        variables_reference: if has_children {
            handle
        } else {
            0
        },
    }
}

/// The store after `node` was shown: its children, if there are any, have a handle.
pub open spec fn store_after(store: HandlesView, node: NodeView) -> HandlesView {
    if unfolded(node).nodes.len() > 0 {
        store.inserted(unfolded(node).nodes)
    } else {
        store
    }
}

/// The store after all of `nodes` were shown, in order.
pub open spec fn store_after_all(store: HandlesView, nodes: Seq<NodeView>) -> HandlesView
    decreases nodes.len(),
{
    if nodes.len() == 0 {
        store
    } else {
        store_after(store_after_all(store, nodes.drop_last()), nodes.last())
    }
}

/// What a client is sent for `nodes`.
pub open spec fn shown(store: HandlesView, nodes: Seq<NodeView>) -> Seq<VariableView> {
    Seq::new(
        nodes.len(),
        |i: int| variable_of(nodes[i], store_after_all(store, nodes.take(i)).next_handle()),
    )
}

/// The answer to a request for the variables under `handle`.
pub open spec fn unknown_handle(handle: u32) -> DapErrorView {
    DapErrorView::Invalid("unknown variablesReference "@ + text::decimal(handle as int))
}

impl Default for VariableHandles {
    fn default() -> (r: Self)
        ensures
            r@ == HandlesView::unused(),
            r@.wf(),
    {
        let r = VariableHandles { next_id: 0, entries: HashMap::new() };
        assert(r@ =~= HandlesView::unused());
        r
    }
}

impl VariableHandles {
    pub closed spec fn view(&self) -> HandlesView {
        HandlesView {
            next_id: self.next_id,
            entries: self.entries@.map_values(|entry: VariableEntry| entry@),
        }
    }

    /// Gives a group of variables the next handle.
    pub fn insert(&mut self, entry: VariableEntry) -> (id: u32)
        ensures
            id == old(self)@.next_handle(),
            final(self)@ == old(self)@.inserted(entry@),
            old(self)@.wf() ==> final(self)@.wf(),
    {
        broadcast use vstd::std_specs::hash::group_hash_axioms;

        let id: u32 = if self.next_id > 1 {
            self.next_id
        } else {
            1
        };
        self.next_id = id.saturating_add(1);
        self.entries.insert(id, entry);
        assert(self@ =~= old(self)@.inserted(entry@));
        id
    }

    /// Forgets all variables: the debuggee runs on, and their values no longer hold.
    pub fn clear(&mut self)
        ensures
            final(self)@ == old(self)@.cleared(),
            final(self)@.wf(),
    {
        self.entries.clear();
        self.next_id = 1;
        assert(self@ =~= old(self)@.cleared());
    }

    /// Shows the variables under a handle.
    pub fn render(&mut self, handle: u32) -> (r: Result<Vec<Variable>, DapError>)
        ensures
            match r {
                Ok(variables) => {
                    &&& old(self)@.entries.dom().contains(handle)
                    &&& variables_view(variables@) == shown(
                        old(self)@,
                        old(self)@.entries[handle],
                    )
                    &&& final(self)@ == store_after_all(old(self)@, old(self)@.entries[handle])
                },
                Err(err) => {
                    &&& !old(self)@.entries.dom().contains(handle)
                    &&& err@ == unknown_handle(handle)
                    &&& final(self)@ == old(self)@
                },
            },
            old(self)@.wf() ==> final(self)@.wf(),
    {
        broadcast use vstd::std_specs::hash::group_hash_axioms;

        let entry = match self.entries.get(&handle) {
            Some(entry) => entry.clone(),
            None => {
                let number = text::decimal_unsigned(handle as u64);
                return Err(
                    DapError::Invalid(
                        "unknown variablesReference ".to_owned().concat(number.as_str()),
                    ),
                );
            },
        };
        let ghost nodes = entry@;
        assert(nodes == old(self)@.entries[handle]);
        let mut rendered: Vec<Variable> = Vec::new();
        assert(nodes.take(0) =~= Seq::empty());
        for i in 0..entry.variables.len()
            invariant
                nodes == node::nodes_view(entry.variables@),
                rendered@.len() == i,
                self@ == store_after_all(old(self)@, nodes.take(i as int)),
                old(self)@.wf() ==> self@.wf(),
                forall|j: int|
                    0 <= j < i ==> (#[trigger] rendered@[j])@ == shown(old(self)@, nodes)[j],
        {
            let node = entry.variables[i].clone();
            assert(node@ == nodes[i as int]);
            assert(nodes.take(i + 1).drop_last() =~= nodes.take(i as int));
            rendered.push(node.into_dap_variable(self));
        }
        assert(nodes.take(entry.variables@.len() as int) =~= nodes);
        assert(variables_view(rendered@) =~= shown(old(self)@, nodes));
        Ok(rendered)
    }
}

impl VariableNode {
    /// Shows the variable, giving its children a handle if there are any.
    pub fn into_dap_variable(self, store: &mut VariableHandles) -> (r: Variable)
        ensures
            r@ == variable_of(self@, old(store)@.next_handle()),
            final(store)@ == store_after(old(store)@, self@),
            old(store)@.wf() ==> final(store)@.wf(),
    {
        let expanded = match self.children {
            ChildKind::Leaf => None,
            ChildKind::Deferred(children) => Some(children.expand()),
            ChildKind::Precomputed(expanded) => Some(expanded),
        };
        let (variables_reference, named, indexed) = match expanded {
            None => (0u32, None, None),
            Some(ExpandedChildren { nodes, kind }) => {
                let len: usize = nodes.len();
                if len == 0 {
                    (0u32, None, None)
                } else {
                    let handle: u32 = store.insert(VariableEntry::new(nodes));
                    let (named, indexed) = kind.counts(len);
                    (handle, named, indexed)
                }
            },
        };
        let name = match self.name {
            Some(name) => name,
            None => String::new(),
        };
        Variable {
            name,
            value: self.value_summary,
            ty: self.ty,
            evaluate_name: self.evaluate_name,
            memory_reference: self.memory_reference,
            named_variables: named,
            indexed_variables: indexed,
            variables_reference,
        }
    }
}

/// How many of `nodes` have children, and so get a handle when they are shown.
pub open spec fn openings(nodes: Seq<NodeView>) -> nat
    decreases nodes.len(),
{
    if nodes.len() == 0 {
        0
    } else {
        openings(nodes.drop_last()) + if unfolded(nodes.last()).nodes.len() > 0 {
            1nat
        } else {
            0nat
        }
    }
}

/// Whether `count` more groups of variables can each get a handle that is not in use.
pub open spec fn has_room(store: HandlesView, count: nat) -> bool {
    count > 0 ==> {
        &&& store.next_handle() + count - 1 <= u32::MAX
        &&& !store.entries.dom().contains(u32::MAX)
    }
}

/// A group of variables gets a handle that was not in use, is not zero, and leads to the group;
/// every other handle leads where it led.
pub proof fn law_insert_is_fresh(store: HandlesView, nodes: Seq<NodeView>)
    requires
        store.wf(),
        has_room(store, 1),
    ensures
        store.next_handle() != 0,
        !store.entries.dom().contains(store.next_handle()),
        store.inserted(nodes).wf(),
        store.inserted(nodes).entries.dom().contains(store.next_handle()),
        store.inserted(nodes).entries[store.next_handle()] == nodes,
        forall|handle: u32| #[trigger]
            store.entries.dom().contains(handle) ==> {
                &&& store.inserted(nodes).entries.dom().contains(handle)
                &&& store.inserted(nodes).entries[handle] == store.entries[handle]
            },
{
    if store.entries.dom().contains(store.next_handle()) {
        assert(store.next_handle() == u32::MAX || store.next_handle() < store.next_id);
    }
}

/// Once the debuggee ran on, no handle leads anywhere, and handles are given out from one again.
pub proof fn law_clear_forgets_all(store: HandlesView, handle: u32)
    ensures
        !store.cleared().entries.dom().contains(handle),
        store.cleared().next_handle() == 1,
        store.cleared().wf(),
        has_room(store.cleared(), 0xFFFF_FFFF),
{
}

proof fn lemma_store_after(store: HandlesView, nodes: Seq<NodeView>)
    requires
        store.wf(),
        has_room(store, openings(nodes)),
    ensures
        ({
            let after = store_after_all(store, nodes);
            &&& after.wf()
            &&& openings(nodes) == 0 ==> after == store
            &&& openings(nodes) > 0 ==> {
                &&& store.next_handle() + openings(nodes) <= u32::MAX ==> {
                    &&& after.next_handle() == store.next_handle() + openings(nodes)
                    &&& !after.entries.dom().contains(u32::MAX)
                }
            }
            &&& forall|handle: u32| #[trigger]
                store.entries.dom().contains(handle) ==> {
                    &&& after.entries.dom().contains(handle)
                    &&& after.entries[handle] == store.entries[handle]
                }
        }),
    decreases nodes.len(),
{
    if nodes.len() > 0 {
        let before = store_after_all(store, nodes.drop_last());
        assert(has_room(store, openings(nodes.drop_last())));
        lemma_store_after(store, nodes.drop_last());
        if unfolded(nodes.last()).nodes.len() > 0 {
            assert(has_room(before, 1));
            law_insert_is_fresh(before, unfolded(nodes.last()).nodes);
        }
    }
}

/// Showing variables keeps what every handle led to before.
pub proof fn law_render_keeps_handles(store: HandlesView, nodes: Seq<NodeView>, handle: u32)
    requires
        store.wf(),
        has_room(store, openings(nodes)),
        store.entries.dom().contains(handle),
    ensures
        store_after_all(store, nodes).wf(),
        store_after_all(store, nodes).entries.dom().contains(handle),
        store_after_all(store, nodes).entries[handle] == store.entries[handle],
{
    lemma_store_after(store, nodes);
}

proof fn lemma_openings_prefix(nodes: Seq<NodeView>, i: int)
    requires
        0 <= i < nodes.len(),
    ensures
        openings(nodes.take(i)) + (if unfolded(nodes[i]).nodes.len() > 0 {
            1nat
        } else {
            0nat
        }) == openings(nodes.take(i + 1)),
        openings(nodes.take(i + 1)) <= openings(nodes),
    decreases nodes.len(),
{
    assert(nodes.take(i + 1).drop_last() =~= nodes.take(i));
    if i + 1 == nodes.len() {
        assert(nodes.take(i + 1) =~= nodes);
    } else {
        lemma_openings_prefix(nodes.drop_last(), i);
        assert(nodes.drop_last().take(i + 1) =~= nodes.take(i + 1));
        assert(nodes.drop_last().take(i) =~= nodes.take(i));
    }
}

proof fn lemma_suffix_keeps(store: HandlesView, nodes: Seq<NodeView>, i: int, handle: u32)
    requires
        store.wf(),
        has_room(store, openings(nodes)),
        0 <= i <= nodes.len(),
        store_after_all(store, nodes.take(i)).entries.dom().contains(handle),
    ensures
        store_after_all(store, nodes).entries.dom().contains(handle),
        store_after_all(store, nodes).entries[handle] == store_after_all(
            store,
            nodes.take(i),
        ).entries[handle],
    decreases nodes.len(),
{
    if i == nodes.len() {
        assert(nodes.take(i) =~= nodes);
    } else {
        let shorter = nodes.drop_last();
        assert(shorter.take(i) =~= nodes.take(i));
        assert(has_room(store, openings(shorter)));
        lemma_suffix_keeps(store, shorter, i, handle);
        lemma_store_after(store, shorter);
        if unfolded(nodes.last()).nodes.len() > 0 {
            assert(has_room(store_after_all(store, shorter), 1));
            law_insert_is_fresh(store_after_all(store, shorter), unfolded(nodes.last()).nodes);
        }
    }
}

/// A client that is shown a variable can unfold it: its reference leads to the variables below
/// it, and is zero where there are none.
pub proof fn law_references_lead_to_children(store: HandlesView, nodes: Seq<NodeView>, i: int)
    requires
        store.wf(),
        has_room(store, openings(nodes)),
        0 <= i < nodes.len(),
    ensures
        ({
            let children = unfolded(nodes[i]).nodes;
            let reference = shown(store, nodes)[i].variables_reference;
            let after = store_after_all(store, nodes);
            &&& reference == 0 <==> children.len() == 0
            &&& children.len() > 0 ==> {
                &&& !store.entries.dom().contains(reference)
                &&& after.entries.dom().contains(reference)
                &&& after.entries[reference] == children
            }
        }),
{
    let before = store_after_all(store, nodes.take(i));
    lemma_openings_prefix(nodes, i);
    lemma_store_after(store, nodes.take(i));
    if unfolded(nodes[i]).nodes.len() > 0 {
        assert(has_room(before, 1));
        law_insert_is_fresh(before, unfolded(nodes[i]).nodes);
        assert(nodes.take(i + 1).drop_last() =~= nodes.take(i));
        lemma_suffix_keeps(store, nodes, i + 1, before.next_handle());
    }
}

/// Two variables that are shown together never share a reference, unless neither has children.
pub proof fn law_references_differ(store: HandlesView, nodes: Seq<NodeView>, i: int, j: int)
    requires
        store.wf(),
        has_room(store, openings(nodes)),
        0 <= i < j < nodes.len(),
        unfolded(nodes[i]).nodes.len() > 0 || unfolded(nodes[j]).nodes.len() > 0,
    ensures
        shown(store, nodes)[i].variables_reference != shown(store, nodes)[j].variables_reference,
{
    law_references_lead_to_children(store, nodes, i);
    law_references_lead_to_children(store, nodes, j);
    if unfolded(nodes[i]).nodes.len() > 0 && unfolded(nodes[j]).nodes.len() > 0 {
        let earlier = nodes.take(j);
        assert(earlier.take(i) =~= nodes.take(i));
        lemma_openings_prefix(nodes, j);
        law_references_lead_to_children(store, earlier, i);
        lemma_store_after(store, earlier);
        law_insert_is_fresh(store_after_all(store, earlier), unfolded(nodes[j]).nodes);
    }
}

/// What a client is told of the children of a variable is what it gets when it asks for them:
/// the reference that it was sent leads to as many variables as it was told.
pub proof fn law_announced_counts_hold(store: HandlesView, nodes: Seq<NodeView>, i: int)
    requires
        store.wf(),
        has_room(store, openings(nodes)),
        0 <= i < nodes.len(),
        unfolded(nodes[i]).nodes.len() > 0,
    ensures
        ({
            let variable = shown(store, nodes)[i];
            let after = store_after_all(store, nodes);
            let answer = shown(after, after.entries[variable.variables_reference]);
            match unfolded(nodes[i]).kind {
                CollectionKind::Named => {
                    &&& variable.named_variables == Some(numbers::capped(answer.len()))
                    &&& variable.indexed_variables is None
                },
                CollectionKind::Indexed => {
                    &&& variable.indexed_variables == Some(numbers::capped(answer.len()))
                    &&& variable.named_variables is None
                },
            }
        }),
{
    law_references_lead_to_children(store, nodes, i);
}

/// How many parts a value has.
pub open spec fn parts(value: ValueView) -> nat {
    match value.layout {
        Some(LayoutView::Structure(members)) => members.len(),
        Some(LayoutView::IndexedList(items)) => items.len(),
        Some(LayoutView::NonIndexedList(values)) => values.len(),
        Some(LayoutView::Entries(entries)) => entries.len(),
        Some(LayoutView::Wrapped(_)) => 1,
        _ => 0,
    }
}

/// Below a value are all of its parts, in order and no others. A member goes by its own name and an
/// element by its index, and each is given by the expression for the whole with that added, as far
/// as there is one. What is in a wrapper has no name, and is given by the expression for the
/// wrapper. A scalar, a pointer and a value of unknown layout have nothing below.
pub proof fn law_value_unfolds_into_its_parts(
    name: Option<Seq<char>>,
    value: ValueView,
    eval_name: Option<Seq<char>>,
)
    ensures
        ({
            let below = unfolded(node::node_of(name, value, eval_name)).nodes;
            &&& below.len() == parts(value)
            &&& !(value.layout matches Some(LayoutView::Wrapped(_))) ==> unfolded(
                node::node_of(name, value, eval_name),
            ) == node::children_of(value, eval_name)
            &&& match value.layout {
                Some(LayoutView::Structure(members)) => forall|i: int|
                    0 <= i < members.len() ==> #[trigger] below[i] == node::node_of(
                        members[i].field_name,
                        members[i].value,
                        match (eval_name, members[i].field_name) {
                            (Some(base), Some(field)) => Some(base + "."@ + field),
                            _ => None,
                        },
                    ),
                Some(LayoutView::IndexedList(items)) => forall|i: int|
                    0 <= i < items.len() ==> #[trigger] below[i] == node::node_of(
                        Some("["@ + text::decimal(items[i].index as int) + "]"@),
                        items[i].value,
                        match eval_name {
                            Some(base) => Some(
                                base + "["@ + text::decimal(items[i].index as int) + "]"@,
                            ),
                            None => None,
                        },
                    ),
                Some(LayoutView::NonIndexedList(values)) => forall|i: int|
                    0 <= i < values.len() ==> #[trigger] below[i] == node::node_of(
                        Some("["@ + text::decimal(i) + "]"@),
                        values[i],
                        match eval_name {
                            Some(base) => Some(base + "["@ + text::decimal(i) + "]"@),
                            None => None,
                        },
                    ),
                Some(LayoutView::Wrapped(inner)) => below == seq![
                    node::node_of(None, *inner, eval_name),
                ],
                _ => true,
            }
        }),
{
}

/// Below a map are its entries, in order. Each is named by the one line for its key, or by its
/// position where that is empty, and described by its value; it is given by no expression, has no
/// address, and has the key and the value below it.
pub proof fn law_map_unfolds_into_entries(
    name: Option<Seq<char>>,
    value: ValueView,
    eval_name: Option<Seq<char>>,
    i: int,
)
    requires
        value.layout matches Some(LayoutView::Entries(entries)) && 0 <= i < entries.len(),
    ensures
        ({
            let entry = value.layout->0->Entries_0[i];
            let shown = unfolded(node::node_of(name, value, eval_name)).nodes[i];
            &&& node::summary(entry.key).len() > 0 ==> shown.name == Some(node::summary(entry.key))
            &&& node::summary(entry.key).len() == 0 ==> shown.name == Some(
                "["@ + text::decimal(i) + "]"@,
            )
            &&& shown.ty == Some(entry.value.ty)
            &&& shown.value_summary == node::summary(entry.value)
            &&& shown.evaluate_name is None
            &&& shown.memory_reference is None
            &&& unfolded(shown).nodes.len() == 2
            &&& unfolded(shown).nodes[0] == node::node_of(Some("key"@), entry.key, None)
            &&& unfolded(shown).nodes[1] == node::node_of(Some("value"@), entry.value, None)
            &&& unfolded(shown).kind == CollectionKind::Named
        }),
{
}

/// A client that is shown a value is told how many parts it has, by index for a list and by name
/// for everything else, and gets a reference under which there are as many variables. A value
/// without parts has no reference and no count, and takes no handle.
pub proof fn law_parts_are_announced(
    store: HandlesView,
    name: Option<Seq<char>>,
    value: ValueView,
    eval_name: Option<Seq<char>>,
)
    requires
        store.wf(),
        has_room(store, 1),
    ensures
        ({
            let nodes = seq![node::node_of(name, value, eval_name)];
            let variable = shown(store, nodes)[0];
            let after = store_after_all(store, nodes);
            let is_list = value.layout matches Some(LayoutView::IndexedList(_))
                || value.layout matches Some(LayoutView::NonIndexedList(_));
            &&& variable.variables_reference != 0 <==> parts(value) > 0
            &&& parts(value) == 0 ==> {
                &&& variable.named_variables is None
                &&& variable.indexed_variables is None
                &&& after == store
            }
            &&& parts(value) > 0 ==> {
                &&& !store.entries.dom().contains(variable.variables_reference)
                &&& after.entries.dom().contains(variable.variables_reference)
                &&& after.entries[variable.variables_reference].len() == parts(value)
                &&& after.entries[variable.variables_reference] == unfolded(nodes[0]).nodes
                &&& is_list ==> {
                    &&& variable.indexed_variables == Some(numbers::capped(parts(value)))
                    &&& variable.named_variables is None
                }
                &&& !is_list ==> {
                    &&& variable.named_variables == Some(numbers::capped(parts(value)))
                    &&& variable.indexed_variables is None
                }
            }
        }),
{
    let nodes = seq![node::node_of(name, value, eval_name)];
    law_value_unfolds_into_its_parts(name, value, eval_name);
    assert(nodes.drop_last() =~= Seq::empty());
    assert(nodes.take(0) =~= Seq::empty());
    assert(openings(nodes.drop_last()) == 0);
    law_references_lead_to_children(store, nodes, 0);
    assert(store_after_all(store, nodes.drop_last()) == store);
}

/// Every variable under a handle is shown, in order, as what it is: by its name, or none where it
/// has none, and with its value, type, expression and address.
pub proof fn law_shown_variables_are_described(store: HandlesView, nodes: Seq<NodeView>, i: int)
    requires
        0 <= i < nodes.len(),
    ensures
        shown(store, nodes).len() == nodes.len(),
        nodes[i].name is Some ==> shown(store, nodes)[i].name == nodes[i].name->0,
        nodes[i].name is None ==> shown(store, nodes)[i].name.len() == 0,
        shown(store, nodes)[i].value == nodes[i].value_summary,
        shown(store, nodes)[i].ty == nodes[i].ty,
        shown(store, nodes)[i].evaluate_name == nodes[i].evaluate_name,
        shown(store, nodes)[i].memory_reference == nodes[i].memory_reference,
{
}

/// Handles are given out one after the other, from one on, up to the last one of all.
pub proof fn law_handles_are_consecutive(store: HandlesView, nodes: Seq<NodeView>)
    ensures
        HandlesView::unused().next_handle() == 1,
        HandlesView::unused().entries.dom() == Set::<u32>::empty(),
        store.next_handle() >= 1,
        store.next_handle() < u32::MAX ==> store.inserted(nodes).next_handle()
            == store.next_handle() + 1,
        store.next_handle() == u32::MAX ==> store.inserted(nodes).next_handle() == u32::MAX,
{
}

/// Showing variables gives out no handle but the references that the client is sent.
pub proof fn law_shown_references_are_all(store: HandlesView, nodes: Seq<NodeView>, handle: u32)
    requires
        store_after_all(store, nodes).entries.dom().contains(handle),
    ensures
        store.entries.dom().contains(handle) || exists|i: int|
            0 <= i < nodes.len() && (#[trigger] shown(store, nodes)[i]).variables_reference
                == handle,
    decreases nodes.len(),
{
    if nodes.len() > 0 {
        let shorter = nodes.drop_last();
        let before = store_after_all(store, shorter);
        let last = nodes.len() - 1;
        assert(nodes.take(last) =~= shorter);
        if before.entries.dom().contains(handle) {
            law_shown_references_are_all(store, shorter, handle);
            if !store.entries.dom().contains(handle) {
                let i = choose|i: int|
                    0 <= i < shorter.len() && (#[trigger] shown(
                        store,
                        shorter,
                    )[i]).variables_reference == handle;
                assert(shorter.take(i) =~= nodes.take(i));
                assert(shown(store, nodes)[i] == shown(store, shorter)[i]);
            }
        } else {
            assert(shown(store, nodes)[last].variables_reference == handle);
        }
    }
}

/// A reference that leads nowhere is refused by its number.
pub proof fn law_unknown_reference_is_named(handle: u32)
    ensures
        unknown_handle(handle) == DapErrorView::Invalid(
            "unknown variablesReference "@ + text::decimal(handle as int),
        ),
{
}

/// The view of a shown variable tells all its fields; that of a list tells all variables in order.
pub proof fn law_variables_are_seen_whole(variables: Seq<Variable>, entry: VariableEntry, i: int)
    requires
        0 <= i < variables.len(),
    ensures
        variables_view(variables).len() == variables.len(),
        variables_view(variables)[i].name == variables[i].name@,
        variables_view(variables)[i].value == variables[i].value@,
        variables_view(variables)[i].ty == text::text_view(variables[i].ty),
        variables_view(variables)[i].evaluate_name == text::text_view(variables[i].evaluate_name),
        variables_view(variables)[i].memory_reference == text::text_view(
            variables[i].memory_reference,
        ),
        variables_view(variables)[i].named_variables == variables[i].named_variables,
        variables_view(variables)[i].indexed_variables == variables[i].indexed_variables,
        variables_view(variables)[i].variables_reference == variables[i].variables_reference,
        entry@ == node::nodes_view(entry.variables@),
{
}

} // verus!

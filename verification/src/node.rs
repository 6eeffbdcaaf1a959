//! The tree of variables that a client can unfold, one level at a time.

use crate::numbers;
use crate::text;
use crate::value;
use crate::value::{
    ArrayItem, DebugValue, EntryView, LayoutView, Member, MemberView, ValueLayout, ValueView,
};
use vstd::prelude::*;
use vstd::string::*;

verus! {

/// Whether children are told apart by their names or by their positions.
#[derive(Clone, Copy, Debug, PartialEq, Eq)]
pub enum CollectionKind {
    Named,
    Indexed,
}

/// A variable, ready to be shown.
#[derive(Debug, PartialEq, Eq)]
pub struct VariableNode {
    pub name: Option<String>,
    /// The name of its type.
    pub ty: Option<String>,
    /// The expression that gives it, where there is one.
    pub evaluate_name: Option<String>,
    /// Its value in one line.
    pub value_summary: String,
    /// Its address, where it lies in memory.
    pub memory_reference: Option<String>,
    pub children: ChildKind,
}

/// What is below a variable.
#[derive(Debug, PartialEq, Eq)]
pub enum ChildKind {
    /// Nothing.
    Leaf,
    /// The parts of a value, not taken apart yet.
    Deferred(ValueChildren),
    /// Variables that are there already.
    Precomputed(ExpandedChildren),
}

/// A value that can be taken apart, with the expression that gives it.
#[derive(Debug, PartialEq, Eq)]
pub struct ValueChildren {
    pub value: DebugValue,
    pub eval_name: Option<String>,
}

/// The variables below a variable.
#[derive(Debug, PartialEq, Eq)]
pub struct ExpandedChildren {
    pub nodes: Vec<VariableNode>,
    pub kind: CollectionKind,
}

/// What a [`VariableNode`] holds.
pub struct NodeView {
    pub name: Option<Seq<char>>,
    pub ty: Option<Seq<char>>,
    pub evaluate_name: Option<Seq<char>>,
    pub value_summary: Seq<char>,
    pub memory_reference: Option<Seq<char>>,
    pub children: ChildView,
}

/// What a [`ChildKind`] holds.
pub enum ChildView {
    Leaf,
    Deferred(ValueView, Option<Seq<char>>),
    Precomputed(ChildrenView),
}

/// What an [`ExpandedChildren`] holds.
pub struct ChildrenView {
    pub nodes: Seq<NodeView>,
    pub kind: CollectionKind,
}

pub open spec fn nodes_view(nodes: Seq<VariableNode>) -> Seq<NodeView>
    decreases nodes,
{
    Seq::new(
        nodes.len(),
        |i: int|
            if 0 <= i < nodes.len() {
                nodes[i].view()
            } else {
                arbitrary()
            },
    )
}

impl VariableNode {
    pub open spec fn view(&self) -> NodeView
        decreases self,
    {
        NodeView {
            name: text::text_view(self.name),
            ty: text::text_view(self.ty),
            evaluate_name: text::text_view(self.evaluate_name),
            value_summary: self.value_summary@,
            memory_reference: text::text_view(self.memory_reference),
            children: match self.children {
                ChildKind::Leaf => ChildView::Leaf,
                ChildKind::Deferred(deferred) => ChildView::Deferred(
                    deferred.value@,
                    text::text_view(deferred.eval_name),
                ),
                ChildKind::Precomputed(expanded) => ChildView::Precomputed(
                    ChildrenView { nodes: nodes_view(expanded.nodes@), kind: expanded.kind },
                ),
            },
        }
    }

    fn duplicate(&self) -> (r: Self)
        ensures
            r@ == self@,
        decreases self,
    {
        let children = match &self.children {
            ChildKind::Leaf => ChildKind::Leaf,
            ChildKind::Deferred(deferred) => ChildKind::Deferred(
                ValueChildren {
                    value: deferred.value.clone(),
                    eval_name: text::clone_text(&deferred.eval_name),
                },
            ),
            ChildKind::Precomputed(expanded) => ChildKind::Precomputed(
                ExpandedChildren {
                    nodes: duplicate_nodes(&expanded.nodes),
                    kind: expanded.kind,
                },
            ),
        };
        VariableNode {
            name: text::clone_text(&self.name),
            ty: text::clone_text(&self.ty),
            evaluate_name: text::clone_text(&self.evaluate_name),
            value_summary: self.value_summary.clone(),
            memory_reference: text::clone_text(&self.memory_reference),
            children,
        }
    }
}

impl Clone for VariableNode {
    fn clone(&self) -> (r: Self)
        ensures
            r@ == self@,
    {
        self.duplicate()
    }
}

pub(crate) fn duplicate_nodes(nodes: &Vec<VariableNode>) -> (r: Vec<VariableNode>)
    ensures
        nodes_view(r@) == nodes_view(nodes@),
    decreases nodes,
{
    let mut r: Vec<VariableNode> = Vec::new();
    for i in 0..nodes.len()
        invariant
            r@.len() == i,
            forall|j: int| 0 <= j < i ==> (#[trigger] r@[j]).view() == nodes@[j].view(),
    {
        let node = nodes[i].duplicate();
        r.push(node);
    }
    assert(nodes_view(r@) =~= nodes_view(nodes@));
    r
}

impl ExpandedChildren {
    pub open spec fn view(&self) -> ChildrenView {
        ChildrenView { nodes: nodes_view(self.nodes@), kind: self.kind }
    }
}

impl CollectionKind {
    /// The numbers of named and of indexed children, of which one is there.
    pub open spec fn counts_of(self, len: nat) -> (Option<u32>, Option<u32>) {
        match self {
            CollectionKind::Named => (Some(numbers::capped(len)), None),
            CollectionKind::Indexed => (None, Some(numbers::capped(len))),
        }
    }

    /// How many children there are by name and by index.
    pub fn counts(self, len: usize) -> (r: (Option<u32>, Option<u32>))
        ensures
            r == self.counts_of(len as nat),
    {
        let len: u32 = numbers::cap_u32(len);
        match self {
            CollectionKind::Named => (Some(len), None),
            CollectionKind::Indexed => (None, Some(len)),
        }
    }
}

/// A type and a number of elements.
pub open spec fn counted(ty: Seq<char>, len: nat) -> Seq<char> {
    ty + " ["@ + text::decimal(len as int) + "]"@
}

/// A value in one line: scalars and pointers by what they hold, everything else by its type
/// and a hint of what is inside.
pub open spec fn summary(value: ValueView) -> Seq<char>
    decreases value,
{
    match value.layout {
        Some(LayoutView::PreRendered(rendered)) => rendered,
        Some(LayoutView::Referential(address)) => text::hexadecimal(address as nat),
        Some(LayoutView::Structure(_)) => value.ty + " {…}"@,
        Some(LayoutView::IndexedList(items)) => counted(value.ty, items.len()),
        Some(LayoutView::NonIndexedList(values)) => counted(value.ty, values.len()),
        Some(LayoutView::Entries(entries)) => counted(value.ty, entries.len()),
        Some(LayoutView::Wrapped(inner)) => value.ty + "("@ + summary(*inner) + ")"@,
        None => value.ty,
    }
}

fn counted_text(ty: &String, len: usize) -> (r: String)
    ensures
        r@ == counted(ty@, len as nat),
{
    let count = text::decimal_unsigned(len as u64);
    ty.clone().concat(" [").concat(count.as_str()).concat("]")
}

/// Describes a value in one line.
pub fn summarize_value(value: &DebugValue) -> (r: String)
    ensures
        r@ == summary(value@),
    decreases value,
{
    match &value.layout {
        Some(ValueLayout::PreRendered(rendered)) => rendered.clone(),
        Some(ValueLayout::Referential(address)) => text::address_text(*address),
        Some(ValueLayout::Structure(_)) => value.ty.clone().concat(" {…}"),
        Some(ValueLayout::IndexedList(items)) => {
            assert(value::items_view(items@).len() == items@.len());
            counted_text(&value.ty, items.len())
        },
        Some(ValueLayout::NonIndexedList(values)) => {
            assert(value::values_view(values@).len() == values@.len());
            counted_text(&value.ty, values.len())
        },
        Some(ValueLayout::Entries(entries)) => {
            assert(value::entries_view(entries@).len() == entries@.len());
            counted_text(&value.ty, entries.len())
        },
        Some(ValueLayout::Wrapped(inner)) => {
            let inside = summarize_value(inner);
            value.ty.clone().concat("(").concat(inside.as_str()).concat(")")
        },
        None => value.ty.clone(),
    }
}

/// The address of a value as a client quotes it.
pub open spec fn memory_reference(value: ValueView) -> Option<Seq<char>> {
    match value.location {
        Some(address) => Some(text::hexadecimal(address as nat)),
        None => None,
    }
}

/// The variable that shows `value`. A value in a wrapper is below the wrapper, under the same
/// expression; the parts of any other value are left to be taken apart later.
pub open spec fn node_of(
    name: Option<Seq<char>>,
    value: ValueView,
    eval_name: Option<Seq<char>>,
) -> NodeView
    decreases value,
{
    NodeView {
        name,
        ty: Some(value.ty),
        evaluate_name: eval_name,
        value_summary: summary(value),
        memory_reference: memory_reference(value),
        children: match value.layout {
            Some(LayoutView::Wrapped(inner)) => ChildView::Precomputed(
                ChildrenView {
                    nodes: seq![node_of(None, *inner, eval_name)],
                    kind: CollectionKind::Named,
                },
            ),
            Some(LayoutView::Structure(_))
            | Some(LayoutView::IndexedList(_))
            | Some(LayoutView::NonIndexedList(_))
            | Some(LayoutView::Entries(_)) => ChildView::Deferred(value, eval_name),
            _ => ChildView::Leaf,
        },
    }
}

/// Shows a value as a variable.
pub fn make_variable_node(
    name: Option<String>,
    value: &DebugValue,
    eval_name: Option<String>,
) -> (r: VariableNode)
    ensures
        r@ == node_of(text::text_view(name), value@, text::text_view(eval_name)),
    decreases value,
{
    let value_summary = summarize_value(value);
    let memory_reference = match value.location {
        Some(address) => Some(text::address_text(address)),
        None => None,
    };
    let children = match &value.layout {
        Some(ValueLayout::Structure(_))
        | Some(ValueLayout::IndexedList(_))
        | Some(ValueLayout::NonIndexedList(_))
        | Some(ValueLayout::Entries(_)) => ChildKind::Deferred(
            ValueChildren { value: value.clone(), eval_name: text::clone_text(&eval_name) },
        ),
        Some(ValueLayout::Wrapped(inner)) => {
            let inner_node = make_variable_node(None, inner, text::clone_text(&eval_name));
            let mut nodes: Vec<VariableNode> = Vec::new();
            nodes.push(inner_node);
            assert(nodes_view(nodes@) =~= seq![inner_node@]);
            ChildKind::Precomputed(ExpandedChildren { nodes, kind: CollectionKind::Named })
        },
        _ => ChildKind::Leaf,
    };
    VariableNode {
        name,
        ty: Some(value.ty.clone()),
        evaluate_name: eval_name,
        value_summary,
        memory_reference,
        children,
    }
}

/// How an element is shown in a list.
pub open spec fn element_name(index: int) -> Seq<char> {
    "["@ + text::decimal(index) + "]"@
}

/// The expression for an element, where there is one for the list.
pub open spec fn element_path(base: Option<Seq<char>>, index: int) -> Option<Seq<char>> {
    match base {
        Some(base) => Some(base + "["@ + text::decimal(index) + "]"@),
        None => None,
    }
}

/// The expression for a member, where there is one for the structure and the member is named.
pub open spec fn member_path(base: Option<Seq<char>>, field: Option<Seq<char>>) -> Option<
    Seq<char>,
> {
    match (base, field) {
        (Some(base), Some(field)) => Some(base + "."@ + field),
        _ => None,
    }
}

/// The variable for a member of a structure.
pub open spec fn member_node(base: Option<Seq<char>>, member: MemberView) -> NodeView {
    node_of(member.field_name, member.value, member_path(base, member.field_name))
}

/// The variable for an element of a list.
pub open spec fn element_node(base: Option<Seq<char>>, index: int, value: ValueView) -> NodeView {
    node_of(Some(element_name(index)), value, element_path(base, index))
}

/// The variable for an entry of a map: named by its key, with the key and the value below.
pub open spec fn entry_node(index: int, entry: EntryView) -> NodeView {
    let key_summary = summary(entry.key);
    NodeView {
        name: Some(
            if key_summary.len() == 0 {
                element_name(index)
            } else {
                key_summary
            },
        ),
        ty: Some(entry.value.ty),
        evaluate_name: None,
        value_summary: summary(entry.value),
        memory_reference: None,
        children: ChildView::Precomputed(
            ChildrenView {
                nodes: seq![
                    node_of(Some("key"@), entry.key, None),
                    node_of(Some("value"@), entry.value, None),
                ],
                kind: CollectionKind::Named,
            },
        ),
    }
}

/// The variables that a value is taken apart into.
pub open spec fn children_of(value: ValueView, base: Option<Seq<char>>) -> ChildrenView {
    match value.layout {
        Some(LayoutView::Structure(members)) => ChildrenView {
            nodes: Seq::new(members.len(), |i: int| member_node(base, members[i])),
            kind: CollectionKind::Named,
        },
        Some(LayoutView::IndexedList(items)) => ChildrenView {
            nodes: Seq::new(
                items.len(),
                |i: int| element_node(base, items[i].index as int, items[i].value),
            ),
            kind: CollectionKind::Indexed,
        },
        Some(LayoutView::NonIndexedList(values)) => ChildrenView {
            nodes: Seq::new(values.len(), |i: int| element_node(base, i, values[i])),
            kind: CollectionKind::Indexed,
        },
        Some(LayoutView::Entries(entries)) => ChildrenView {
            nodes: Seq::new(entries.len(), |i: int| entry_node(i, entries[i])),
            kind: CollectionKind::Named,
        },
        _ => ChildrenView { nodes: Seq::empty(), kind: CollectionKind::Named },
    }
}

fn element_name_text(index: &String) -> (r: String)
    ensures
        r@ == "["@ + index@ + "]"@,
{
    "[".to_owned().concat(index.as_str()).concat("]")
}

fn element_path_text(base: &Option<String>, index: &String) -> (r: Option<String>)
    ensures
        text::text_view(r) == match text::text_view(*base) {
            Some(base) => Some(base + "["@ + index@ + "]"@),
            None => None,
        },
{
    match base {
        Some(base) => Some(base.clone().concat("[").concat(index.as_str()).concat("]")),
        None => None,
    }
}

fn make_member_node(base: &Option<String>, member: &Member) -> (r: VariableNode)
    ensures
        r@ == member_node(
            text::text_view(*base),
            MemberView {
                field_name: text::text_view(member.field_name),
                value: member.value@,
            },
        ),
{
    let child_eval = match (base, &member.field_name) {
        (Some(base), Some(field)) => Some(base.clone().concat(".").concat(field.as_str())),
        _ => None,
    };
    make_variable_node(text::clone_text(&member.field_name), &member.value, child_eval)
}

fn make_element_node(base: &Option<String>, index: &String, value: &DebugValue) -> (r: VariableNode)
    ensures
        r@ == node_of(
            Some("["@ + index@ + "]"@),
            value@,
            match text::text_view(*base) {
                Some(base) => Some(base + "["@ + index@ + "]"@),
                None => None,
            },
        ),
{
    let name = element_name_text(index);
    make_variable_node(Some(name), value, element_path_text(base, index))
}

fn make_entry_node(index: usize, key: &DebugValue, value: &DebugValue) -> (r: VariableNode)
    ensures
        r@ == entry_node(index as int, EntryView { key: key@, value: value@ }),
{
    let key_summary = summarize_value(key);
    let entry_name = if key_summary.as_str().is_empty() {
        element_name_text(&text::decimal_unsigned(index as u64))
    } else {
        key_summary
    };
    let key_node = make_variable_node(Some("key".to_owned()), key, None);
    let value_node = make_variable_node(Some("value".to_owned()), value, None);
    let mut nodes: Vec<VariableNode> = Vec::new();
    nodes.push(key_node);
    nodes.push(value_node);
    assert(nodes_view(nodes@) =~= seq![key_node@, value_node@]);
    VariableNode {
        name: Some(entry_name),
        ty: Some(value.ty.clone()),
        evaluate_name: None,
        value_summary: summarize_value(value),
        memory_reference: None,
        children: ChildKind::Precomputed(
            ExpandedChildren { nodes, kind: CollectionKind::Named },
        ),
    }
}

fn expand_members(members: &Vec<Member>, base: &Option<String>) -> (r: Vec<VariableNode>)
    ensures
        nodes_view(r@) == Seq::new(
            members@.len(),
            |i: int| member_node(text::text_view(*base), value::members_view(members@)[i]),
        ),
{
    let mut nodes: Vec<VariableNode> = Vec::new();
    for i in 0..members.len()
        invariant
            nodes@.len() == i,
            forall|j: int|
                0 <= j < i ==> (#[trigger] nodes@[j]).view() == member_node(
                    text::text_view(*base),
                    value::members_view(members@)[j],
                ),
    {
        nodes.push(make_member_node(base, &members[i]));
    }
    assert(nodes_view(nodes@) =~= Seq::new(
        members@.len(),
        |i: int| member_node(text::text_view(*base), value::members_view(members@)[i]),
    ));
    nodes
}

fn expand_items(items: &Vec<ArrayItem>, base: &Option<String>) -> (r: Vec<VariableNode>)
    ensures
        nodes_view(r@) == Seq::new(
            items@.len(),
            |i: int|
                element_node(
                    text::text_view(*base),
                    value::items_view(items@)[i].index as int,
                    value::items_view(items@)[i].value,
                ),
        ),
{
    let mut nodes: Vec<VariableNode> = Vec::new();
    for i in 0..items.len()
        invariant
            nodes@.len() == i,
            forall|j: int|
                0 <= j < i ==> (#[trigger] nodes@[j]).view() == element_node(
                    text::text_view(*base),
                    value::items_view(items@)[j].index as int,
                    value::items_view(items@)[j].value,
                ),
    {
        let index = text::decimal_signed(items[i].index);
        nodes.push(make_element_node(base, &index, &items[i].value));
    }
    assert(nodes_view(nodes@) =~= Seq::new(
        items@.len(),
        |i: int|
            element_node(
                text::text_view(*base),
                value::items_view(items@)[i].index as int,
                value::items_view(items@)[i].value,
            ),
    ));
    nodes
}

fn expand_values(values: &Vec<DebugValue>, base: &Option<String>) -> (r: Vec<VariableNode>)
    ensures
        nodes_view(r@) == Seq::new(
            values@.len(),
            |i: int| element_node(text::text_view(*base), i, value::values_view(values@)[i]),
        ),
{
    let mut nodes: Vec<VariableNode> = Vec::new();
    for i in 0..values.len()
        invariant
            nodes@.len() == i,
            forall|j: int|
                0 <= j < i ==> (#[trigger] nodes@[j]).view() == element_node(
                    text::text_view(*base),
                    j,
                    value::values_view(values@)[j],
                ),
    {
        let index = text::decimal_unsigned(i as u64);
        nodes.push(make_element_node(base, &index, &values[i]));
    }
    assert(nodes_view(nodes@) =~= Seq::new(
        values@.len(),
        |i: int| element_node(text::text_view(*base), i, value::values_view(values@)[i]),
    ));
    nodes
}

fn expand_entries(entries: &Vec<(DebugValue, DebugValue)>) -> (r: Vec<VariableNode>)
    ensures
        nodes_view(r@) == Seq::new(
            entries@.len(),
            |i: int| entry_node(i, value::entries_view(entries@)[i]),
        ),
{
    let mut nodes: Vec<VariableNode> = Vec::new();
    for i in 0..entries.len()
        invariant
            nodes@.len() == i,
            forall|j: int|
                0 <= j < i ==> (#[trigger] nodes@[j]).view() == entry_node(
                    j,
                    value::entries_view(entries@)[j],
                ),
    {
        nodes.push(make_entry_node(i, &entries[i].0, &entries[i].1));
    }
    assert(nodes_view(nodes@) =~= Seq::new(
        entries@.len(),
        |i: int| entry_node(i, value::entries_view(entries@)[i]),
    ));
    nodes
}

impl ValueChildren {
    /// Takes the value apart into the variables below it.
    pub fn expand(&self) -> (r: ExpandedChildren)
        ensures
            r@ == children_of(self.value@, text::text_view(self.eval_name)),
    {
        let ghost base = text::text_view(self.eval_name);
        match &self.value.layout {
            Some(ValueLayout::Structure(members)) => {
                let nodes = expand_members(members, &self.eval_name);
                assert(nodes_view(nodes@) =~= children_of(self.value@, base).nodes);
                ExpandedChildren { nodes, kind: CollectionKind::Named }
            },
            Some(ValueLayout::IndexedList(items)) => {
                let nodes = expand_items(items, &self.eval_name);
                assert(nodes_view(nodes@) =~= children_of(self.value@, base).nodes);
                ExpandedChildren { nodes, kind: CollectionKind::Indexed }
            },
            Some(ValueLayout::NonIndexedList(values)) => {
                let nodes = expand_values(values, &self.eval_name);
                assert(nodes_view(nodes@) =~= children_of(self.value@, base).nodes);
                ExpandedChildren { nodes, kind: CollectionKind::Indexed }
            },
            Some(ValueLayout::Entries(entries)) => {
                let nodes = expand_entries(entries);
                assert(nodes_view(nodes@) =~= children_of(self.value@, base).nodes);
                ExpandedChildren { nodes, kind: CollectionKind::Named }
            },
            _ => {
                let nodes: Vec<VariableNode> = Vec::new();
                assert(nodes_view(nodes@) =~= Seq::<NodeView>::empty());
                ExpandedChildren { nodes, kind: CollectionKind::Named }
            },
        }
    }
}

/// Elements of a list are told apart: elements with different indices have different names.
pub proof fn law_element_names_differ(a: int, b: int)
    requires
        a != b,
    ensures
        element_name(a) != element_name(b),
{
    if element_name(a) == element_name(b) {
        let open_len = "["@.len() as int;
        let a_end = element_name(a).len() - "]"@.len();
        let b_end = element_name(b).len() - "]"@.len();
        assert(element_name(a).subrange(open_len, a_end) =~= text::decimal(a));
        assert(element_name(b).subrange(open_len, b_end) =~= text::decimal(b));
        text::law_decimal_injective(a, b);
    }
}

/// A value is taken apart completely: there is one variable for each member, element or entry,
/// and none for a value that has no parts.
pub proof fn law_children_are_complete(value: ValueView, base: Option<Seq<char>>)
    ensures
        children_of(value, base).nodes.len() == match value.layout {
            Some(LayoutView::Structure(members)) => members.len(),
            Some(LayoutView::IndexedList(items)) => items.len(),
            Some(LayoutView::NonIndexedList(values)) => values.len(),
            Some(LayoutView::Entries(entries)) => entries.len(),
            _ => 0,
        },
{
}

/// Of the two numbers of children exactly one is there.
pub proof fn law_counts_are_exclusive(kind: CollectionKind, len: nat)
    ensures
        kind.counts_of(len).0 is Some <==> kind.counts_of(len).1 is None,
        len <= u32::MAX ==> (kind.counts_of(len).0 == Some(len as u32) || kind.counts_of(len).1
            == Some(len as u32)),
{
}

/// The one line for a value: what a scalar holds, the address that a pointer holds, and else the
/// type, with the number of elements or what is in the wrapper where there is such a thing.
pub proof fn law_summary_tells_content(value: ValueView)
    ensures
        match value.layout {
            Some(LayoutView::PreRendered(rendered)) => summary(value) == rendered,
            Some(LayoutView::Referential(address)) => {
                &&& summary(value).take(2) == seq!['0', 'x']
                &&& text::number_read(summary(value).skip(2), 16) == address
            },
            Some(LayoutView::Structure(_)) => summary(value) == value.ty + " {…}"@,
            Some(LayoutView::IndexedList(items)) => summary(value) == value.ty + " ["@
                + text::decimal(items.len() as int) + "]"@,
            Some(LayoutView::NonIndexedList(values)) => summary(value) == value.ty + " ["@
                + text::decimal(values.len() as int) + "]"@,
            Some(LayoutView::Entries(entries)) => summary(value) == value.ty + " ["@
                + text::decimal(entries.len() as int) + "]"@,
            Some(LayoutView::Wrapped(inner)) => summary(value) == value.ty + "("@ + summary(*inner)
                + ")"@,
            None => summary(value) == value.ty,
        },
{
    if let Some(LayoutView::Referential(address)) = value.layout {
        text::law_hexadecimal_reads_back(address as nat);
    }
}

/// A variable says of its value what there is to say: the given name and expression, the type, the
/// one line, and the address exactly where the value lies in memory.
pub proof fn law_node_describes_value(
    name: Option<Seq<char>>,
    value: ValueView,
    eval_name: Option<Seq<char>>,
)
    ensures
        ({
            let node = node_of(name, value, eval_name);
            &&& node.name == name
            &&& node.ty == Some(value.ty)
            &&& node.evaluate_name == eval_name
            &&& node.value_summary == summary(value)
            &&& node.memory_reference is Some <==> value.location is Some
            &&& value.location is Some ==> {
                &&& node.memory_reference->0.take(2) == seq!['0', 'x']
                &&& text::number_read(node.memory_reference->0.skip(2), 16) == value.location->0
            }
        }),
{
    if let Some(address) = value.location {
        text::law_hexadecimal_reads_back(address as nat);
    }
}

/// The view of a variable tells all its fields and what is below it; that of a list tells all
/// variables in order.
pub proof fn law_nodes_are_seen_whole(node: VariableNode, nodes: Seq<VariableNode>, i: int)
    requires
        0 <= i < nodes.len(),
    ensures
        node@.name == text::text_view(node.name),
        node@.ty == text::text_view(node.ty),
        node@.evaluate_name == text::text_view(node.evaluate_name),
        node@.value_summary == node.value_summary@,
        node@.memory_reference == text::text_view(node.memory_reference),
        match node.children {
            ChildKind::Leaf => node@.children is Leaf,
            ChildKind::Deferred(deferred) => {
                &&& node@.children is Deferred
                &&& node@.children->Deferred_0 == deferred.value@
                &&& node@.children->Deferred_1 == text::text_view(deferred.eval_name)
            },
            ChildKind::Precomputed(expanded) => {
                &&& node@.children is Precomputed
                &&& node@.children->Precomputed_0.kind == expanded.kind
                &&& node@.children->Precomputed_0.nodes == nodes_view(expanded.nodes@)
            },
        },
        nodes_view(nodes).len() == nodes.len(),
        nodes_view(nodes)[i] == nodes[i].view(),
{
}

} // verus!

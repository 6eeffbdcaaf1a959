//! The values that the debugger reads from the debuggee, as the adapter shows them.

use crate::text;
use vstd::prelude::*;

verus! {

/// A value of the debuggee.
#[derive(Debug, PartialEq, Eq)]
pub struct DebugValue {
    /// The name of its type.
    pub ty: String,
    /// Its address, where it lies in memory.
    pub location: Option<usize>,
    /// How it is laid out, where that is known.
    pub layout: Option<ValueLayout>,
}

/// How a value is laid out for rendering.
#[derive(Debug, PartialEq, Eq)]
pub enum ValueLayout {
    /// A scalar, rendered already.
    PreRendered(String),
    /// A pointer: the address that it holds.
    Referential(usize),
    /// Another value in a wrapper.
    Wrapped(Box<DebugValue>),
    /// Members, in order.
    Structure(Vec<Member>),
    /// Items that carry their index.
    IndexedList(Vec<ArrayItem>),
    /// Items without an index.
    NonIndexedList(Vec<DebugValue>),
    /// Keys with their values.
    Entries(Vec<(DebugValue, DebugValue)>),
}

/// A member of a structure.
#[derive(Debug, PartialEq, Eq)]
pub struct Member {
    pub field_name: Option<String>,
    pub value: DebugValue,
}

/// An item of an indexed list.
#[derive(Debug, PartialEq, Eq)]
pub struct ArrayItem {
    pub index: i64,
    pub value: DebugValue,
}

/// What a [`DebugValue`] holds.
pub struct ValueView {
    pub ty: Seq<char>,
    pub location: Option<usize>,
    pub layout: Option<LayoutView>,
}

/// What a [`ValueLayout`] holds.
pub enum LayoutView {
    PreRendered(Seq<char>),
    Referential(usize),
    Wrapped(Box<ValueView>),
    Structure(Seq<MemberView>),
    IndexedList(Seq<ItemView>),
    NonIndexedList(Seq<ValueView>),
    Entries(Seq<EntryView>),
}

/// What a [`Member`] holds.
pub struct MemberView {
    pub field_name: Option<Seq<char>>,
    pub value: ValueView,
}

/// What an [`ArrayItem`] holds.
pub struct ItemView {
    pub index: i64,
    pub value: ValueView,
}

/// What a key and its value hold.
pub struct EntryView {
    pub key: ValueView,
    pub value: ValueView,
}

pub open spec fn members_view(members: Seq<Member>) -> Seq<MemberView>
    decreases members,
{
    Seq::new(
        members.len(),
        |i: int|
            if 0 <= i < members.len() {
                MemberView {
                    field_name: text::text_view(members[i].field_name),
                    value: members[i].value.view(),
                }
            } else {
                arbitrary()
            },
    )
}

pub open spec fn items_view(items: Seq<ArrayItem>) -> Seq<ItemView>
    decreases items,
{
    Seq::new(
        items.len(),
        |i: int|
            if 0 <= i < items.len() {
                ItemView { index: items[i].index, value: items[i].value.view() }
            } else {
                arbitrary()
            },
    )
}

pub open spec fn values_view(values: Seq<DebugValue>) -> Seq<ValueView>
    decreases values,
{
    Seq::new(
        values.len(),
        |i: int|
            if 0 <= i < values.len() {
                values[i].view()
            } else {
                arbitrary()
            },
    )
}

pub open spec fn entries_view(entries: Seq<(DebugValue, DebugValue)>) -> Seq<EntryView>
    decreases entries,
{
    Seq::new(
        entries.len(),
        |i: int|
            if 0 <= i < entries.len() {
                EntryView { key: entries[i].0.view(), value: entries[i].1.view() }
            } else {
                arbitrary()
            },
    )
}

impl DebugValue {
    pub open spec fn view(&self) -> ValueView
        decreases self,
    {
        ValueView {
            ty: self.ty@,
            location: self.location,
            layout: match self.layout {
                None => None,
                Some(ValueLayout::PreRendered(rendered)) => Some(
                    LayoutView::PreRendered(rendered@),
                ),
                Some(ValueLayout::Referential(address)) => Some(LayoutView::Referential(address)),
                Some(ValueLayout::Wrapped(inner)) => Some(
                    LayoutView::Wrapped(Box::new(inner.view())),
                ),
                Some(ValueLayout::Structure(members)) => Some(
                    LayoutView::Structure(members_view(members@)),
                ),
                Some(ValueLayout::IndexedList(items)) => Some(
                    LayoutView::IndexedList(items_view(items@)),
                ),
                Some(ValueLayout::NonIndexedList(values)) => Some(
                    LayoutView::NonIndexedList(values_view(values@)),
                ),
                Some(ValueLayout::Entries(entries)) => Some(
                    LayoutView::Entries(entries_view(entries@)),
                ),
            },
        }
    }

    fn duplicate(&self) -> (r: Self)
        ensures
            r@ == self@,
        decreases self,
    {
        let layout = match &self.layout {
            None => None,
            Some(ValueLayout::PreRendered(rendered)) => Some(
                ValueLayout::PreRendered(rendered.clone()),
            ),
            Some(ValueLayout::Referential(address)) => Some(ValueLayout::Referential(*address)),
            Some(ValueLayout::Wrapped(inner)) => Some(
                ValueLayout::Wrapped(Box::new(inner.duplicate())),
            ),
            Some(ValueLayout::Structure(members)) => Some(
                ValueLayout::Structure(duplicate_members(members)),
            ),
            Some(ValueLayout::IndexedList(items)) => Some(
                ValueLayout::IndexedList(duplicate_items(items)),
            ),
            Some(ValueLayout::NonIndexedList(values)) => Some(
                ValueLayout::NonIndexedList(duplicate_values(values)),
            ),
            Some(ValueLayout::Entries(entries)) => Some(
                ValueLayout::Entries(duplicate_entries(entries)),
            ),
        };
        DebugValue { ty: self.ty.clone(), location: self.location, layout }
    }
}

fn duplicate_members(members: &Vec<Member>) -> (r: Vec<Member>)
    ensures
        members_view(r@) == members_view(members@),
    decreases members,
{
    let mut r: Vec<Member> = Vec::new();
    for i in 0..members.len()
        invariant
            r@.len() == i,
            forall|j: int|
                0 <= j < i ==> {
                    &&& text::text_view((#[trigger] r@[j]).field_name) == text::text_view(
                        members@[j].field_name,
                    )
                    &&& r@[j].value.view() == members@[j].value.view()
                },
    {
        let field_name = text::clone_text(&members[i].field_name);
        let value = members[i].value.duplicate();
        r.push(Member { field_name, value });
    }
    assert(members_view(r@) =~= members_view(members@));
    r
}

fn duplicate_items(items: &Vec<ArrayItem>) -> (r: Vec<ArrayItem>)
    ensures
        items_view(r@) == items_view(items@),
    decreases items,
{
    let mut r: Vec<ArrayItem> = Vec::new();
    for i in 0..items.len()
        invariant
            r@.len() == i,
            forall|j: int|
                0 <= j < i ==> {
                    &&& (#[trigger] r@[j]).index == items@[j].index
                    &&& r@[j].value.view() == items@[j].value.view()
                },
    {
        let value = items[i].value.duplicate();
        r.push(ArrayItem { index: items[i].index, value });
    }
    assert(items_view(r@) =~= items_view(items@));
    r
}

fn duplicate_values(values: &Vec<DebugValue>) -> (r: Vec<DebugValue>)
    ensures
        values_view(r@) == values_view(values@),
    decreases values,
{
    let mut r: Vec<DebugValue> = Vec::new();
    for i in 0..values.len()
        invariant
            r@.len() == i,
            forall|j: int| 0 <= j < i ==> (#[trigger] r@[j]).view() == values@[j].view(),
    {
        let value = values[i].duplicate();
        r.push(value);
    }
    assert(values_view(r@) =~= values_view(values@));
    r
}

fn duplicate_entries(entries: &Vec<(DebugValue, DebugValue)>) -> (r: Vec<(DebugValue, DebugValue)>)
    ensures
        entries_view(r@) == entries_view(entries@),
    decreases entries,
{
    let mut r: Vec<(DebugValue, DebugValue)> = Vec::new();
    for i in 0..entries.len()
        invariant
            r@.len() == i,
            forall|j: int|
                0 <= j < i ==> {
                    &&& (#[trigger] r@[j]).0.view() == entries@[j].0.view()
                    &&& r@[j].1.view() == entries@[j].1.view()
                },
    {
        let key = entries[i].0.duplicate();
        let value = entries[i].1.duplicate();
        r.push((key, value));
    }
    assert(entries_view(r@) =~= entries_view(entries@));
    r
}

impl Clone for DebugValue {
    fn clone(&self) -> (r: Self)
        ensures
            r@ == self@,
    {
        self.duplicate()
    }
}

/// The view of a value tells its type, its address and its layout with all its parts in order, each
/// part by its own view.
pub proof fn law_values_are_seen_whole(value: DebugValue, i: int)
    ensures
        value@.ty == value.ty@,
        value@.location == value.location,
        value.layout is None <==> value@.layout is None,
        match value.layout {
            None => true,
            Some(ValueLayout::PreRendered(rendered)) => value@.layout == Some(
                LayoutView::PreRendered(rendered@),
            ),
            Some(ValueLayout::Referential(address)) => value@.layout == Some(
                LayoutView::Referential(address),
            ),
            Some(ValueLayout::Wrapped(inner)) => {
                &&& value@.layout->0 is Wrapped
                &&& *value@.layout->0->Wrapped_0 == inner.view()
            },
            Some(ValueLayout::Structure(members)) => {
                let seen = value@.layout->0->Structure_0;
                &&& value@.layout->0 is Structure
                &&& seen.len() == members@.len()
                &&& 0 <= i < members@.len() ==> {
                    &&& seen[i].field_name == text::text_view(members@[i].field_name)
                    &&& seen[i].value == members@[i].value.view()
                }
            },
            Some(ValueLayout::IndexedList(items)) => {
                let seen = value@.layout->0->IndexedList_0;
                &&& value@.layout->0 is IndexedList
                &&& seen.len() == items@.len()
                &&& 0 <= i < items@.len() ==> {
                    &&& seen[i].index == items@[i].index
                    &&& seen[i].value == items@[i].value.view()
                }
            },
            Some(ValueLayout::NonIndexedList(values)) => {
                let seen = value@.layout->0->NonIndexedList_0;
                &&& value@.layout->0 is NonIndexedList
                &&& seen.len() == values@.len()
                &&& 0 <= i < values@.len() ==> seen[i] == values@[i].view()
            },
            Some(ValueLayout::Entries(entries)) => {
                let seen = value@.layout->0->Entries_0;
                &&& value@.layout->0 is Entries
                &&& seen.len() == entries@.len()
                &&& 0 <= i < entries@.len() ==> {
                    &&& seen[i].key == entries@[i].0.view()
                    &&& seen[i].value == entries@[i].1.view()
                }
            },
        },
{
    match value.layout {
        Some(ValueLayout::Structure(members)) => {
            assert(members_view(members@).len() == members@.len());
            if 0 <= i < members@.len() {
                assert(members_view(members@)[i].value == members@[i].value.view());
            }
        },
        Some(ValueLayout::IndexedList(items)) => {
            assert(items_view(items@).len() == items@.len());
            if 0 <= i < items@.len() {
                assert(items_view(items@)[i].value == items@[i].value.view());
            }
        },
        Some(ValueLayout::NonIndexedList(values)) => {
            assert(values_view(values@).len() == values@.len());
            if 0 <= i < values@.len() {
                assert(values_view(values@)[i] == values@[i].view());
            }
        },
        Some(ValueLayout::Entries(entries)) => {
            assert(entries_view(entries@).len() == entries@.len());
            if 0 <= i < entries@.len() {
                assert(entries_view(entries@)[i].key == entries@[i].0.view());
            }
        },
        _ => {},
    }
}

} // verus!

//! The breakpoints that the debugger holds for a client, by the source file they were asked for in.

use vstd::prelude::*;
use vstd::string::*;

verus! {

/// A breakpoint that the debugger holds.
#[derive(Debug, PartialEq, Eq)]
pub struct PlacedBreakpoint {
    /// The path that the client asked for.
    pub path: String,
    /// The number that the debugger knows the breakpoint by.
    pub number: u32,
}

/// What a [`PlacedBreakpoint`] holds.
pub struct PlacedView {
    pub path: Seq<char>,
    pub number: u32,
}

impl View for PlacedBreakpoint {
    type V = PlacedView;

    open spec fn view(&self) -> PlacedView {
        PlacedView { path: self.path@, number: self.number }
    }
}

/// The breakpoints that earlier requests left in the debugger.
#[derive(Debug, PartialEq, Eq)]
pub struct PlacedBreakpoints {
    pub entries: Vec<PlacedBreakpoint>,
}

impl View for PlacedBreakpoints {
    type V = Seq<PlacedView>;

    open spec fn view(&self) -> Seq<PlacedView> {
        Seq::new(self.entries@.len(), |i: int| self.entries@[i]@)
    }
}

/// The numbers of the breakpoints of a source file.
pub open spec fn numbers_in(known: Seq<PlacedView>, path: Seq<char>) -> Seq<u32>
    decreases known.len(),
{
    if known.len() == 0 {
        Seq::empty()
    } else if known.last().path == path {
        numbers_in(known.drop_last(), path).push(known.last().number)
    } else {
        numbers_in(known.drop_last(), path)
    }
}

/// The breakpoints of all other source files.
pub open spec fn outside(known: Seq<PlacedView>, path: Seq<char>) -> Seq<PlacedView>
    decreases known.len(),
{
    if known.len() == 0 {
        Seq::empty()
    } else if known.last().path == path {
        outside(known.drop_last(), path)
    } else {
        outside(known.drop_last(), path).push(known.last())
    }
}

/// What is known once a source file has these breakpoints and no others.
pub open spec fn updated(known: Seq<PlacedView>, path: Seq<char>, numbers: Seq<u32>) -> Seq<
    PlacedView,
> {
    outside(known, path) + Seq::new(
        numbers.len(),
        |i: int| PlacedView { path, number: numbers[i] },
    )
}

impl Default for PlacedBreakpoints {
    fn default() -> (r: Self)
        ensures
            r@ == Seq::<PlacedView>::empty(),
    {
        let r = PlacedBreakpoints { entries: Vec::new() };
        assert(r@ =~= Seq::empty());
        r
    }
}

impl PlacedBreakpoints {
    /// The numbers of the breakpoints of a source file.
    pub fn numbers(&self, path: &String) -> (r: Vec<u32>)
        ensures
            r@ == numbers_in(self@, path@),
    {
        let mut r: Vec<u32> = Vec::new();
        assert(self@.take(0) =~= Seq::empty());
        for i in 0..self.entries.len()
            invariant
                r@ == numbers_in(self@.take(i as int), path@),
        {
            assert(self@.take(i + 1).drop_last() =~= self@.take(i as int));
            assert(self@.take(i + 1).last() == self.entries@[i as int]@);
            if self.entries[i].path == *path {
                r.push(self.entries[i].number);
            }
        }
        assert(self@.take(self.entries@.len() as int) =~= self@);
        r
    }

    /// Takes down that a source file has these breakpoints and no others.
    pub fn update(&mut self, path: &String, numbers: &Vec<u32>)
        ensures
            final(self)@ == updated(old(self)@, path@, numbers@),
    {
        let mut kept: PlacedBreakpoints = PlacedBreakpoints { entries: Vec::new() };
        assert(self@.take(0) =~= Seq::empty());
        assert(kept@ =~= outside(self@.take(0), path@));
        for i in 0..self.entries.len()
            invariant
                kept@ == outside(self@.take(i as int), path@),
        {
            let ghost before = kept@;
            assert(self@.take(i + 1).drop_last() =~= self@.take(i as int));
            assert(self@.take(i + 1).last() == self.entries@[i as int]@);
            if self.entries[i].path != *path {
                let entry = PlacedBreakpoint {
                    path: self.entries[i].path.clone(),
                    number: self.entries[i].number,
                };
                kept.entries.push(entry);
                assert(kept@ =~= before.push(self.entries@[i as int]@));
            }
        }
        assert(self@.take(self.entries@.len() as int) =~= self@);
        let ghost others = outside(self@, path@);
        assert(kept@ =~= others + Seq::new(0, |j: int| PlacedView { path: path@, number: 0 }));
        for i in 0..numbers.len()
            invariant
                others == outside(self@, path@),
                kept@ == others + Seq::new(
                    i as nat,
                    |j: int| PlacedView { path: path@, number: numbers@[j] },
                ),
        {
            let ghost before = kept@;
            kept.entries.push(PlacedBreakpoint { path: path.clone(), number: numbers[i] });
            assert(kept@ =~= before.push(PlacedView { path: path@, number: numbers@[i as int] }));
            assert(kept@ =~= others + Seq::new(
                (i + 1) as nat,
                |j: int| PlacedView { path: path@, number: numbers@[j] },
            ));
        }
        assert(kept@ =~= updated(self@, path@, numbers@));
        self.entries = kept.entries;
        assert(self@ =~= kept@);
    }
}

proof fn lemma_numbers_outside(known: Seq<PlacedView>, path: Seq<char>, other: Seq<char>)
    ensures
        numbers_in(outside(known, path), other) == if other == path {
            Seq::empty()
        } else {
            numbers_in(known, other)
        },
    decreases known.len(),
{
    if known.len() > 0 {
        let shorter = known.drop_last();
        lemma_numbers_outside(shorter, path, other);
        if known.last().path != path {
            assert(outside(known, path).drop_last() =~= outside(shorter, path));
        }
    }
}

proof fn lemma_numbers_appended(
    known: Seq<PlacedView>,
    path: Seq<char>,
    numbers: Seq<u32>,
    other: Seq<char>,
)
    ensures
        numbers_in(
            known + Seq::new(numbers.len(), |i: int| PlacedView { path, number: numbers[i] }),
            other,
        ) == if other == path {
            numbers_in(known, other) + numbers
        } else {
            numbers_in(known, other)
        },
    decreases numbers.len(),
{
    let added = Seq::new(numbers.len(), |i: int| PlacedView { path, number: numbers[i] });
    if numbers.len() == 0 {
        assert(known + added =~= known);
        assert(numbers_in(known, other) + numbers =~= numbers_in(known, other));
    } else {
        let shorter = numbers.drop_last();
        lemma_numbers_appended(known, path, shorter, other);
        assert((known + added).drop_last() =~= known + Seq::new(
            shorter.len(),
            |i: int| PlacedView { path, number: shorter[i] },
        ));
        assert((known + added).last() == PlacedView { path, number: numbers.last() });
        if other == path {
            assert((numbers_in(known, other) + shorter).push(numbers.last()) =~= numbers_in(
                known,
                other,
            ) + numbers);
        }
    }
}

/// What is taken down for a source file is read back, and every other file keeps what it has.
pub proof fn law_update_is_read_back(
    known: Seq<PlacedView>,
    path: Seq<char>,
    numbers: Seq<u32>,
    other: Seq<char>,
)
    ensures
        numbers_in(updated(known, path, numbers), other) == if other == path {
            numbers
        } else {
            numbers_in(known, other)
        },
{
    lemma_numbers_outside(known, path, other);
    lemma_numbers_appended(outside(known, path), path, numbers, other);
    assert(Seq::<u32>::empty() + numbers =~= numbers);
}

/// A number is known for a source file exactly if there is an entry for it; where nothing is known
/// there is none.
pub proof fn law_known_numbers_have_entries(known: Seq<PlacedView>, path: Seq<char>, number: u32)
    ensures
        numbers_in(known, path).contains(number) <==> exists|i: int|
            0 <= i < known.len() && (#[trigger] known[i]).path == path && known[i].number == number,
    decreases known.len(),
{
    let numbers = numbers_in(known, path);
    if known.len() > 0 {
        let shorter = known.drop_last();
        let before = numbers_in(shorter, path);
        law_known_numbers_have_entries(shorter, path, number);
        if exists|i: int|
            0 <= i < shorter.len() && (#[trigger] shorter[i]).path == path && shorter[i].number
                == number {
            let i = choose|i: int|
                0 <= i < shorter.len() && (#[trigger] shorter[i]).path == path && shorter[i].number
                    == number;
            assert(known[i].path == path && known[i].number == number);
            let j = choose|j: int| 0 <= j < before.len() && before[j] == number;
            assert(numbers[j] == number);
        }
        if known.last().path == path && known.last().number == number {
            assert(known[known.len() - 1].path == path);
            assert(numbers[numbers.len() - 1] == number);
        }
        if numbers.contains(number) && !before.contains(number) {
            let j = choose|j: int| 0 <= j < numbers.len() && numbers[j] == number;
            if j < before.len() {
                assert(before[j] == number);
            }
            assert(known[known.len() - 1].path == path && known[known.len() - 1].number == number);
        }
        if exists|i: int|
            0 <= i < known.len() && (#[trigger] known[i]).path == path && known[i].number
                == number {
            let i = choose|i: int|
                0 <= i < known.len() && (#[trigger] known[i]).path == path && known[i].number
                    == number;
            if i < shorter.len() {
                assert(shorter[i].path == path && shorter[i].number == number);
            }
        }
    }
}

/// The view of what is known tells all entries in order, each with its path and its number.
pub proof fn law_entries_are_seen_whole(known: PlacedBreakpoints, i: int)
    requires
        0 <= i < known.entries@.len(),
    ensures
        known@.len() == known.entries@.len(),
        known@[i].path == known.entries@[i].path@,
        known@[i].number == known.entries@[i].number,
{
}

} // verus!

//! Setting the breakpoints of a source file: those that a client asks for take the place of those
//! that it asked for before.

use crate::error::{DapError, DapErrorView};
use crate::frame;
use crate::frame::{Place, PlaceView, Source, SourceView};
use crate::numbers;
use crate::placement;
use crate::placement::{PlacedBreakpoints, PlacedView};
use crate::text;
use vstd::prelude::*;
use vstd::string::*;

verus! {

/// A breakpoint as the debugger describes it.
#[derive(Debug, PartialEq, Eq)]
pub struct BreakpointInfo {
    pub number: u32,
    pub place: Option<Place>,
}

/// What a [`BreakpointInfo`] holds.
pub struct BreakpointInfoView {
    pub number: u32,
    pub place: Option<PlaceView>,
}

impl View for BreakpointInfo {
    type V = BreakpointInfoView;

    open spec fn view(&self) -> BreakpointInfoView {
        BreakpointInfoView { number: self.number, place: frame::place_view(self.place) }
    }
}

/// A breakpoint as a client is told of it.
#[derive(Debug, PartialEq, Eq)]
pub struct Breakpoint {
    pub id: Option<u64>,
    /// Whether it is set.
    pub verified: bool,
    pub line: Option<u32>,
    pub source: Option<Source>,
    /// Why it is not set.
    pub message: Option<String>,
}

/// What a [`Breakpoint`] holds.
pub struct BreakpointView {
    pub id: Option<u64>,
    pub verified: bool,
    pub line: Option<u32>,
    pub source: Option<SourceView>,
    pub message: Option<Seq<char>>,
}

impl View for Breakpoint {
    type V = BreakpointView;

    open spec fn view(&self) -> BreakpointView {
        BreakpointView {
            id: self.id,
            verified: self.verified,
            line: self.line,
            source: frame::source_view(self.source),
            message: text::text_view(self.message),
        }
    }
}

pub open spec fn breakpoints_view(breakpoints: Seq<Breakpoint>) -> Seq<BreakpointView> {
    Seq::new(breakpoints.len(), |i: int| breakpoints[i]@)
}

/// How a breakpoint that was asked for at `line` of `path` is shown: where the debugger put it,
/// as far as that is known, or as not set.
pub open spec fn shown_breakpoint(
    info: Option<BreakpointInfoView>,
    line: u32,
    path: Seq<char>,
) -> BreakpointView {
    match info {
        Some(info) => BreakpointView {
            id: Some(info.number as u64),
            verified: true,
            line: match info.place {
                Some(place) => Some(numbers::low_word(place.line_number)),
                None => Some(line),
            },
            source: match info.place {
                Some(place) => Some(frame::source_of(place.file)),
                None => None,
            },
            message: None,
        },
        None => BreakpointView {
            id: None,
            verified: false,
            line: Some(line),
            source: Some(frame::source_of(path)),
            message: Some("Failed to set breakpoint"@),
        },
    }
}

/// The view of an optional description of a breakpoint.
pub open spec fn info_view(info: Option<BreakpointInfo>) -> Option<BreakpointInfoView> {
    match info {
        Some(info) => Some(info@),
        None => None,
    }
}

/// Shows a breakpoint that was asked for at `line` of `path`.
pub fn convert_breakpoint(info: Option<BreakpointInfo>, line: u32, path: &str) -> (r: Breakpoint)
    ensures
        r@ == shown_breakpoint(info_view(info), line, path@),
{
    match info {
        Some(info) => {
            let (shown_line, source) = match &info.place {
                Some(place) => (
                    numbers::truncate_u32(place.line_number),
                    Some(frame::make_source(place.file.as_str())),
                ),
                None => (line, None),
            };
            Breakpoint {
                id: Some(info.number as u64),
                verified: true,
                line: Some(shown_line),
                source,
                message: None,
            }
        },
        None => Breakpoint {
            id: None,
            verified: false,
            line: Some(line),
            source: Some(frame::make_source(path)),
            message: Some("Failed to set breakpoint".to_owned()),
        },
    }
}

/// What came of the attempt to set a breakpoint.
#[derive(Debug, PartialEq, Eq)]
pub enum SetOutcome {
    /// The breakpoints that the debugger set for the line.
    Placed(Vec<BreakpointInfo>),
    /// The debugger refused, with this message.
    Refused(String),
}

/// What a [`SetOutcome`] holds.
pub enum SetOutcomeView {
    Placed(Seq<BreakpointInfoView>),
    Refused(Seq<char>),
}

impl View for SetOutcome {
    type V = SetOutcomeView;

    open spec fn view(&self) -> SetOutcomeView {
        match self {
            SetOutcome::Placed(infos) => SetOutcomeView::Placed(
                Seq::new(infos@.len(), |i: int| infos@[i]@),
            ),
            SetOutcome::Refused(message) => SetOutcomeView::Refused(message@),
        }
    }
}

/// How the outcome for `line` is shown: by the last breakpoint that was set for it.
pub open spec fn answer_to(outcome: SetOutcomeView, line: u32, path: Seq<char>) -> BreakpointView {
    match outcome {
        SetOutcomeView::Placed(infos) => shown_breakpoint(
            if infos.len() > 0 {
                Some(infos.last())
            } else {
                None
            },
            line,
            path,
        ),
        SetOutcomeView::Refused(message) => BreakpointView {
            id: None,
            verified: false,
            line: Some(line),
            source: None,
            message: Some(message),
        },
    }
}

/// The numbers but for `number`.
pub open spec fn without(numbers: Seq<u32>, number: u32) -> Seq<u32>
    decreases numbers.len(),
{
    if numbers.len() == 0 {
        numbers
    } else if numbers.last() == number {
        without(numbers.drop_last(), number)
    } else {
        without(numbers.drop_last(), number).push(numbers.last())
    }
}

/// The numbers, and `number` if it is not among them.
pub open spec fn including(numbers: Seq<u32>, number: u32) -> Seq<u32> {
    if numbers.contains(number) {
        numbers
    } else {
        numbers.push(number)
    }
}

fn remove_number(numbers: &Vec<u32>, number: u32) -> (r: Vec<u32>)
    ensures
        r@ == without(numbers@, number),
{
    let mut r: Vec<u32> = Vec::new();
    assert(numbers@.take(0) =~= Seq::empty());
    for i in 0..numbers.len()
        invariant
            r@ == without(numbers@.take(i as int), number),
    {
        assert(numbers@.take(i + 1).drop_last() =~= numbers@.take(i as int));
        if numbers[i] != number {
            r.push(numbers[i]);
        }
    }
    assert(numbers@.take(numbers@.len() as int) =~= numbers@);
    r
}

fn include_number(numbers: &mut Vec<u32>, number: u32)
    ensures
        final(numbers)@ == including(old(numbers)@, number),
{
    for i in 0..numbers.len()
        invariant
            numbers@ == old(numbers)@,
            forall|j: int| 0 <= j < i ==> numbers@[j] != number,
    {
        if numbers[i] == number {
            assert(numbers@.contains(number));
            return;
        }
    }
    numbers.push(number);
}

/// The breakpoints that were asked for in one file, those answered so far, and what becomes of
/// the ones that earlier requests left there.
#[derive(Debug, PartialEq, Eq)]
pub struct BreakpointBatch {
    pub path: String,
    pub lines: Vec<u32>,
    pub results: Vec<Breakpoint>,
    /// The breakpoints of earlier requests that no outcome names so far.
    pub stale: Vec<u32>,
    /// The breakpoints that the debugger is left with for the file.
    pub held: Vec<u32>,
}

/// What a [`BreakpointBatch`] holds.
#[verifier::ext_equal]
pub struct BatchView {
    pub path: Seq<char>,
    pub lines: Seq<u32>,
    pub results: Seq<BreakpointView>,
    pub stale: Seq<u32>,
    pub held: Seq<u32>,
}

impl View for BreakpointBatch {
    type V = BatchView;

    open spec fn view(&self) -> BatchView {
        BatchView {
            path: self.path@,
            lines: self.lines@,
            results: breakpoints_view(self.results@),
            stale: self.stale@,
            held: self.held@,
        }
    }
}

impl BatchView {
    /// The batch for a request, given what earlier ones left: all of that in the file is stale
    /// until an outcome names it.
    pub open spec fn begun(known: Seq<PlacedView>, path: Seq<char>, lines: Seq<u32>) -> BatchView {
        BatchView {
            path,
            lines,
            results: Seq::empty(),
            stale: placement::numbers_in(known, path),
            held: Seq::empty(),
        }
    }

    /// The line to set a breakpoint at next.
    pub open spec fn pending_line(self) -> Option<u32> {
        if self.results.len() < self.lines.len() {
            Some(self.lines[self.results.len() as int])
        } else {
            None
        }
    }

    /// The batch once the debugger holds these breakpoints for it.
    pub open spec fn holding(self, infos: Seq<BreakpointInfoView>) -> BatchView
        decreases infos.len(),
    {
        if infos.len() == 0 {
            self
        } else {
            let before = self.holding(infos.drop_last());
            BatchView {
                stale: without(before.stale, infos.last().number),
                held: including(before.held, infos.last().number),
                ..before
            }
        }
    }

    /// The batch after the outcome for the pending line; without one nothing changes.
    pub open spec fn recorded(self, outcome: SetOutcomeView) -> BatchView {
        match self.pending_line() {
            Some(line) => {
                let answered = BatchView {
                    results: self.results.push(answer_to(outcome, line, self.path)),
                    ..self
                };
                match outcome {
                    SetOutcomeView::Placed(infos) => answered.holding(infos),
                    SetOutcomeView::Refused(_) => answered,
                }
            },
            None => self,
        }
    }

    /// The batch after some outcomes, in order.
    pub open spec fn recorded_all(self, outcomes: Seq<SetOutcomeView>) -> BatchView
        decreases outcomes.len(),
    {
        if outcomes.len() == 0 {
            self
        } else {
            self.recorded_all(outcomes.drop_last()).recorded(outcomes.last())
        }
    }

    /// The breakpoint to remove next: a stale one, once every line is answered.
    pub open spec fn pending_removal(self) -> Option<u32> {
        if self.pending_line() is None && self.stale.len() > 0 {
            Some(self.stale.last())
        } else {
            None
        }
    }

    /// The batch after the attempt to remove that breakpoint; without one nothing changes.
    pub open spec fn removal_recorded(self, gone: bool) -> BatchView {
        match self.pending_removal() {
            Some(number) => BatchView {
                stale: self.stale.drop_last(),
                held: if gone {
                    self.held
                } else {
                    including(self.held, number)
                },
                ..self
            },
            None => self,
        }
    }

    /// The batch after some such attempts, in order.
    pub open spec fn removals_recorded(self, gone: Seq<bool>) -> BatchView
        decreases gone.len(),
    {
        if gone.len() == 0 {
            self
        } else {
            self.removals_recorded(gone.drop_last()).removal_recorded(gone.last())
        }
    }

    /// What is known after the request: the file has what the debugger was left with, and what
    /// it was not asked to remove yet.
    pub open spec fn known_after(self, known: Seq<PlacedView>) -> Seq<PlacedView> {
        placement::updated(known, self.path, self.held + self.stale)
    }
}

/// Reads a request to set the breakpoints of a file, given what earlier ones left.
pub fn set_breakpoints(
    known: &PlacedBreakpoints,
    path: Option<String>,
    lines: Option<Vec<u32>>,
) -> (r: Result<BreakpointBatch, DapError>)
    ensures
        match r {
            Ok(batch) => {
                &&& path is Some
                &&& batch@ == BatchView::begun(
                    known@,
                    path->0@,
                    match lines {
                        Some(lines) => lines@,
                        None => Seq::empty(),
                    },
                )
            },
            Err(err) => {
                &&& path is None
                &&& err@ == DapErrorView::Invalid("source path required"@)
            },
        },
{
    match path {
        Some(path) => {
            let lines = match lines {
                Some(lines) => lines,
                None => Vec::new(),
            };
            let stale = known.numbers(&path);
            let batch = BreakpointBatch {
                path,
                lines,
                results: Vec::new(),
                stale,
                held: Vec::new(),
            };
            assert(batch@.results =~= Seq::empty());
            Ok(batch)
        },
        None => Err(DapError::Invalid("source path required".to_owned())),
    }
}

impl BreakpointBatch {
    /// The line to set a breakpoint at next, if there is one left.
    pub fn pending(&self) -> (r: Option<u32>)
        ensures
            r == self@.pending_line(),
    {
        if self.results.len() < self.lines.len() {
            Some(self.lines[self.results.len()])
        } else {
            None
        }
    }

    fn hold(&mut self, infos: &Vec<BreakpointInfo>)
        ensures
            final(self)@ == old(self)@.holding(Seq::new(infos@.len(), |i: int| infos@[i]@)),
    {
        let ghost views = Seq::new(infos@.len(), |i: int| infos@[i]@);
        assert(views.take(0) =~= Seq::empty());
        for i in 0..infos.len()
            invariant
                views == Seq::new(infos@.len(), |i: int| infos@[i]@),
                self@ == old(self)@.holding(views.take(i as int)),
        {
            assert(views.take(i + 1).drop_last() =~= views.take(i as int));
            assert(views.take(i + 1).last() == infos@[i as int]@);
            let number: u32 = infos[i].number;
            self.stale = remove_number(&self.stale, number);
            include_number(&mut self.held, number);
        }
        assert(views.take(infos@.len() as int) =~= views);
    }

    /// Takes down the outcome for the pending line.
    pub fn record(&mut self, outcome: SetOutcome)
        ensures
            final(self)@ == old(self)@.recorded(outcome@),
    {
        if let Some(line) = self.pending() {
            match outcome {
                SetOutcome::Placed(infos) => {
                    let ghost views = Seq::new(infos@.len(), |i: int| infos@[i]@);
                    let ghost answered = BatchView {
                        results: self@.results.push(answer_to(outcome@, line, self@.path)),
                        ..self@
                    };
                    self.hold(&infos);
                    proof {
                        lemma_holding(old(self)@, views);
                        lemma_holding(answered, views);
                        lemma_holding_ignores_results(old(self)@, answered, views);
                    }
                    let mut infos = infos;
                    let info = infos.pop();
                    assert(info is Some ==> info->0@ == views.last());
                    let breakpoint = convert_breakpoint(info, line, self.path.as_str());
                    self.results.push(breakpoint);
                },
                SetOutcome::Refused(message) => {
                    let breakpoint = Breakpoint {
                        id: None,
                        verified: false,
                        line: Some(line),
                        source: None,
                        message: Some(message),
                    };
                    self.results.push(breakpoint);
                },
            }
            assert(self@ =~= old(self)@.recorded(outcome@));
        }
    }

    /// The breakpoint to remove next, if there is one left.
    pub fn pending_removal(&self) -> (r: Option<u32>)
        ensures
            r == self@.pending_removal(),
    {
        if self.results.len() < self.lines.len() || self.stale.len() == 0 {
            None
        } else {
            Some(self.stale[self.stale.len() - 1])
        }
    }

    /// Takes down whether the breakpoint to remove is gone.
    pub fn record_removal(&mut self, gone: bool)
        ensures
            final(self)@ == old(self)@.removal_recorded(gone),
    {
        if let Some(number) = self.pending_removal() {
            self.stale.pop();
            if !gone {
                include_number(&mut self.held, number);
            }
        }
    }

    /// Takes down what the debugger is left with.
    pub fn finish(&self, known: &mut PlacedBreakpoints)
        ensures
            final(known)@ == self@.known_after(old(known)@),
    {
        let mut numbers: Vec<u32> = Vec::new();
        assert(self.held@.take(0) =~= numbers@);
        for i in 0..self.held.len()
            invariant
                numbers@ == self.held@.take(i as int),
        {
            numbers.push(self.held[i]);
            assert(numbers@ =~= self.held@.take(i + 1));
        }
        assert(numbers@ =~= self.held@ + self.stale@.take(0));
        for i in 0..self.stale.len()
            invariant
                numbers@ == self.held@ + self.stale@.take(i as int),
        {
            numbers.push(self.stale[i]);
            assert(numbers@ =~= self.held@ + self.stale@.take(i + 1));
        }
        assert(numbers@ =~= self.held@ + self.stale@);
        known.update(&self.path, &numbers);
    }
}

proof fn lemma_without(numbers: Seq<u32>, number: u32, n: u32)
    ensures
        without(numbers, number).contains(n) <==> numbers.contains(n) && n != number,
    decreases numbers.len(),
{
    if numbers.len() > 0 {
        let shorter = numbers.drop_last();
        lemma_without(shorter, number, n);
        lemma_contains_pushed(shorter, numbers.last(), n);
        assert(shorter.push(numbers.last()) =~= numbers);
        lemma_contains_pushed(without(shorter, number), numbers.last(), n);
    }
}

proof fn lemma_contains_pushed(numbers: Seq<u32>, number: u32, n: u32)
    ensures
        numbers.push(number).contains(n) <==> numbers.contains(n) || n == number,
{
    let longer = numbers.push(number);
    if numbers.contains(n) {
        let i = choose|i: int| 0 <= i < numbers.len() && numbers[i] == n;
        assert(longer[i] == n);
    }
    if n == number {
        assert(longer[numbers.len() as int] == n);
    }
    if longer.contains(n) && n != number {
        let i = choose|i: int| 0 <= i < longer.len() && longer[i] == n;
        assert(numbers[i] == n);
    }
}

/// Whether an outcome names the breakpoint with this number.
pub open spec fn names(outcome: SetOutcomeView, number: u32) -> bool {
    match outcome {
        SetOutcomeView::Placed(infos) => exists|i: int|
            0 <= i < infos.len() && (#[trigger] infos[i]).number == number,
        SetOutcomeView::Refused(_) => false,
    }
}

/// Whether one of the outcomes of a request names the breakpoint with this number.
pub open spec fn placed_by(outcomes: Seq<SetOutcomeView>, number: u32) -> bool {
    exists|i: int| 0 <= i < outcomes.len() && names(#[trigger] outcomes[i], number)
}

proof fn lemma_holding(batch: BatchView, infos: Seq<BreakpointInfoView>)
    ensures
        batch.holding(infos).path == batch.path,
        batch.holding(infos).lines == batch.lines,
        batch.holding(infos).results == batch.results,
        forall|n: u32| #[trigger]
            batch.holding(infos).stale.contains(n) <==> batch.stale.contains(n) && !names(
                SetOutcomeView::Placed(infos),
                n,
            ),
        forall|n: u32| #[trigger]
            batch.holding(infos).held.contains(n) <==> batch.held.contains(n) || names(
                SetOutcomeView::Placed(infos),
                n,
            ),
    decreases infos.len(),
{
    if infos.len() > 0 {
        let shorter = infos.drop_last();
        let number = infos.last().number;
        let before = batch.holding(shorter);
        lemma_holding(batch, shorter);
        assert forall|n: u32| #[trigger]
            names(SetOutcomeView::Placed(infos), n) <==> names(SetOutcomeView::Placed(shorter), n)
                || n == number by {
            if names(SetOutcomeView::Placed(shorter), n) {
                let i = choose|i: int| 0 <= i < shorter.len() && (#[trigger] shorter[i]).number == n;
                assert(infos[i].number == n);
            }
            if n == number {
                assert(infos[infos.len() - 1].number == n);
            }
            if names(SetOutcomeView::Placed(infos), n) && n != number {
                let i = choose|i: int| 0 <= i < infos.len() && (#[trigger] infos[i]).number == n;
                assert(shorter[i].number == n);
            }
        }
        assert forall|n: u32| #[trigger]
            batch.holding(infos).stale.contains(n) <==> batch.stale.contains(n) && !names(
                SetOutcomeView::Placed(infos),
                n,
            ) by {
            lemma_without(before.stale, number, n);
            assert(before.stale.contains(n) <==> batch.stale.contains(n) && !names(
                SetOutcomeView::Placed(shorter),
                n,
            ));
        }
        assert forall|n: u32| #[trigger]
            batch.holding(infos).held.contains(n) <==> batch.held.contains(n) || names(
                SetOutcomeView::Placed(infos),
                n,
            ) by {
            lemma_contains_pushed(before.held, number, n);
            assert(before.held.contains(n) <==> batch.held.contains(n) || names(
                SetOutcomeView::Placed(shorter),
                n,
            ));
        }
    }
}

proof fn lemma_holding_ignores_results(
    batch: BatchView,
    other: BatchView,
    infos: Seq<BreakpointInfoView>,
)
    requires
        batch.stale == other.stale,
        batch.held == other.held,
    ensures
        batch.holding(infos).stale == other.holding(infos).stale,
        batch.holding(infos).held == other.holding(infos).held,
    decreases infos.len(),
{
    if infos.len() > 0 {
        lemma_holding_ignores_results(batch, other, infos.drop_last());
    }
}

/// Each line that a client asks for is answered, in order: once there is an outcome for every
/// line, the answers are those to the outcomes, and no line is left.
pub proof fn law_every_line_is_answered(batch: BatchView, outcomes: Seq<SetOutcomeView>)
    requires
        batch.results.len() == 0,
        outcomes.len() <= batch.lines.len(),
    ensures
        ({
            let after = batch.recorded_all(outcomes);
            &&& after.results == Seq::new(
                outcomes.len(),
                |i: int| answer_to(outcomes[i], batch.lines[i], batch.path),
            )
            &&& after.path == batch.path
            &&& after.lines == batch.lines
            &&& after.pending_line() is None <==> outcomes.len() == batch.lines.len()
        }),
    decreases outcomes.len(),
{
    let answers = Seq::new(
        outcomes.len(),
        |i: int| answer_to(outcomes[i], batch.lines[i], batch.path),
    );
    if outcomes.len() > 0 {
        let before = batch.recorded_all(outcomes.drop_last());
        law_every_line_is_answered(batch, outcomes.drop_last());
        if let SetOutcomeView::Placed(infos) = outcomes.last() {
            lemma_holding(
                BatchView {
                    results: before.results.push(
                        answer_to(outcomes.last(), before.pending_line()->0, before.path),
                    ),
                    ..before
                },
                infos,
            );
        }
    }
    assert(batch.recorded_all(outcomes).results =~= answers);
}

proof fn lemma_recorded_numbers(batch: BatchView, outcomes: Seq<SetOutcomeView>)
    requires
        batch.results.len() == 0,
        outcomes.len() <= batch.lines.len(),
    ensures
        ({
            let after = batch.recorded_all(outcomes);
            &&& forall|n: u32| #[trigger]
                after.stale.contains(n) <==> batch.stale.contains(n) && !placed_by(outcomes, n)
            &&& forall|n: u32| #[trigger]
                after.held.contains(n) <==> batch.held.contains(n) || placed_by(outcomes, n)
        }),
    decreases outcomes.len(),
{
    if outcomes.len() > 0 {
        let shorter = outcomes.drop_last();
        let before = batch.recorded_all(shorter);
        let after = batch.recorded_all(outcomes);
        let answered = BatchView {
            results: before.results.push(
                answer_to(outcomes.last(), before.pending_line()->0, before.path),
            ),
            ..before
        };
        lemma_recorded_numbers(batch, shorter);
        law_every_line_is_answered(batch, shorter);
        assert forall|n: u32| #[trigger]
            placed_by(outcomes, n) <==> placed_by(shorter, n) || names(outcomes.last(), n) by {
            if placed_by(shorter, n) {
                let i = choose|i: int| 0 <= i < shorter.len() && names(#[trigger] shorter[i], n);
                assert(names(outcomes[i], n));
            }
            if names(outcomes.last(), n) {
                assert(names(outcomes[outcomes.len() - 1], n));
            }
            if placed_by(outcomes, n) && !names(outcomes.last(), n) {
                let i = choose|i: int| 0 <= i < outcomes.len() && names(#[trigger] outcomes[i], n);
                assert(names(shorter[i], n));
            }
        }
        if let SetOutcomeView::Placed(infos) = outcomes.last() {
            lemma_holding(answered, infos);
        }
        assert forall|n: u32| #[trigger]
            after.stale.contains(n) <==> batch.stale.contains(n) && !placed_by(outcomes, n) by {
            assert(before.stale.contains(n) <==> batch.stale.contains(n) && !placed_by(shorter, n));
            assert(answered.stale.contains(n) <==> before.stale.contains(n));
        }
        assert forall|n: u32| #[trigger]
            after.held.contains(n) <==> batch.held.contains(n) || placed_by(outcomes, n) by {
            assert(before.held.contains(n) <==> batch.held.contains(n) || placed_by(shorter, n));
            assert(answered.held.contains(n) <==> before.held.contains(n));
        }
    }
}

/// The breakpoints of a debugger after these outcomes.
pub open spec fn set_by(debugger: Set<u32>, outcomes: Seq<SetOutcomeView>) -> Set<u32> {
    Set::new(|n: u32| debugger.contains(n) || placed_by(outcomes, n))
}

impl BatchView {
    /// The breakpoints of a debugger after some attempts to remove the pending one.
    pub open spec fn left_by(self, debugger: Set<u32>, gone: Seq<bool>) -> Set<u32>
        decreases gone.len(),
    {
        if gone.len() == 0 {
            debugger
        } else {
            let before = self.left_by(debugger, gone.drop_last());
            match self.removals_recorded(gone.drop_last()).pending_removal() {
                Some(number) if gone.last() => before.remove(number),
                _ => before,
            }
        }
    }
}

proof fn lemma_all_removed(batch: BatchView, debugger: Set<u32>, count: nat)
    requires
        batch.pending_line() is None,
        count <= batch.stale.len(),
    ensures
        ({
            let gone = Seq::new(count, |i: int| true);
            let after = batch.removals_recorded(gone);
            let rest = (batch.stale.len() - count) as int;
            &&& after == BatchView { stale: batch.stale.take(rest), ..batch }
            &&& forall|n: u32| #[trigger]
                batch.left_by(debugger, gone).contains(n) <==> debugger.contains(n)
                    && !batch.stale.skip(rest).contains(n)
        }),
    decreases count,
{
    let gone = Seq::new(count, |i: int| true);
    let rest = (batch.stale.len() - count) as int;
    if count == 0 {
        assert(batch.stale.take(rest) =~= batch.stale);
        assert(batch.stale.skip(rest) =~= Seq::empty());
    } else {
        let fewer = (count - 1) as nat;
        let shorter = Seq::new(fewer, |i: int| true);
        lemma_all_removed(batch, debugger, fewer);
        assert(gone.drop_last() =~= shorter);
        assert(gone.last());
        assert(batch.stale.take(rest + 1).drop_last() =~= batch.stale.take(rest));
        assert(batch.stale.take(rest + 1).last() == batch.stale[rest]);
        assert forall|n: u32| #[trigger]
            batch.left_by(debugger, gone).contains(n) <==> debugger.contains(n)
                && !batch.stale.skip(rest).contains(n) by {
            let more = batch.stale.skip(rest);
            let less = batch.stale.skip(rest + 1);
            assert(batch.left_by(debugger, shorter).contains(n) <==> debugger.contains(n)
                && !less.contains(n));
            if less.contains(n) {
                let i = choose|i: int| 0 <= i < less.len() && less[i] == n;
                assert(more[i + 1] == n);
            }
            assert(more[0] == batch.stale[rest]);
            if more.contains(n) && n != batch.stale[rest] {
                let i = choose|i: int| 0 <= i < more.len() && more[i] == n;
                assert(less[i - 1] == n);
            }
        }
    }
}

/// The breakpoints of a file are those of the last request: once every line has its outcome and
/// every stale breakpoint is removed, the debugger has lost those of earlier requests that this
/// one does not name, has those that could be set, and keeps all others. This is also what is
/// known for the next request.
pub proof fn law_request_replaces_breakpoints(
    known: Seq<PlacedView>,
    path: Seq<char>,
    lines: Seq<u32>,
    outcomes: Seq<SetOutcomeView>,
    debugger: Set<u32>,
)
    requires
        outcomes.len() == lines.len(),
    ensures
        ({
            let answered = BatchView::begun(known, path, lines).recorded_all(outcomes);
            let gone = Seq::new(answered.stale.len(), |i: int| true);
            let done = answered.removals_recorded(gone);
            let left = answered.left_by(set_by(debugger, outcomes), gone);
            &&& done.pending_line() is None
            &&& done.pending_removal() is None
            &&& done.results == answered.results
            &&& forall|n: u32| #[trigger]
                left.contains(n) <==> placed_by(outcomes, n) || (debugger.contains(n)
                    && !placement::numbers_in(known, path).contains(n))
            &&& forall|n: u32| #[trigger]
                placement::numbers_in(done.known_after(known), path).contains(n) <==> placed_by(
                    outcomes,
                    n,
                )
            &&& forall|other: Seq<char>|
                other != path ==> #[trigger] placement::numbers_in(done.known_after(known), other)
                    == placement::numbers_in(known, other)
        }),
{
    let begun = BatchView::begun(known, path, lines);
    let answered = begun.recorded_all(outcomes);
    let gone = Seq::new(answered.stale.len(), |i: int| true);
    let done = answered.removals_recorded(gone);
    let left = answered.left_by(set_by(debugger, outcomes), gone);
    law_every_line_is_answered(begun, outcomes);
    lemma_recorded_numbers(begun, outcomes);
    lemma_all_removed(answered, set_by(debugger, outcomes), answered.stale.len());
    assert(answered.stale.skip(0) =~= answered.stale);
    assert(answered.stale.take(0) =~= Seq::empty());
    assert(done.held + done.stale =~= answered.held);
    assert forall|n: u32| #[trigger]
        left.contains(n) <==> placed_by(outcomes, n) || (debugger.contains(n)
            && !placement::numbers_in(known, path).contains(n)) by {
        assert(answered.stale.contains(n) <==> begun.stale.contains(n) && !placed_by(outcomes, n));
    }
    placement::law_update_is_read_back(known, path, answered.held, path);
    assert forall|n: u32| #[trigger]
        placement::numbers_in(done.known_after(known), path).contains(n) <==> placed_by(
            outcomes,
            n,
        ) by {
        assert(answered.held.contains(n) <==> begun.held.contains(n) || placed_by(outcomes, n));
    }
    assert forall|other: Seq<char>| other != path implies #[trigger] placement::numbers_in(
        done.known_after(known),
        other,
    ) == placement::numbers_in(known, other) by {
        placement::law_update_is_read_back(known, path, answered.held, other);
    }
}

proof fn lemma_removals_forget_nothing(
    batch: BatchView,
    debugger: Set<u32>,
    gone: Seq<bool>,
    n: u32,
)
    ensures
        ({
            let after = batch.removals_recorded(gone);
            &&& after.path == batch.path
            &&& batch.left_by(debugger, gone).contains(n) && (batch.stale.contains(n)
                || batch.held.contains(n)) ==> after.stale.contains(n) || after.held.contains(n)
        }),
    decreases gone.len(),
{
    if gone.len() > 0 {
        let before = batch.removals_recorded(gone.drop_last());
        lemma_removals_forget_nothing(batch, debugger, gone.drop_last(), n);
        if let Some(number) = before.pending_removal() {
            lemma_contains_pushed(before.stale.drop_last(), number, n);
            assert(before.stale.drop_last().push(number) =~= before.stale);
            lemma_contains_pushed(before.held, number, n);
        }
    }
}

/// No breakpoint of a file is lost sight of: whatever the debugger still has of what was known
/// there or was set by this request is known to the next one, even if it could not be removed.
pub proof fn law_unremoved_breakpoints_stay_known(
    known: Seq<PlacedView>,
    path: Seq<char>,
    lines: Seq<u32>,
    outcomes: Seq<SetOutcomeView>,
    debugger: Set<u32>,
    gone: Seq<bool>,
    n: u32,
)
    requires
        outcomes.len() <= lines.len(),
    ensures
        ({
            let answered = BatchView::begun(known, path, lines).recorded_all(outcomes);
            let done = answered.removals_recorded(gone);
            let left = answered.left_by(set_by(debugger, outcomes), gone);
            left.contains(n) && (placement::numbers_in(known, path).contains(n) || placed_by(
                outcomes,
                n,
            )) ==> placement::numbers_in(done.known_after(known), path).contains(n)
        }),
{
    let begun = BatchView::begun(known, path, lines);
    let answered = begun.recorded_all(outcomes);
    let done = answered.removals_recorded(gone);
    law_every_line_is_answered(begun, outcomes);
    lemma_recorded_numbers(begun, outcomes);
    assert(answered.stale.contains(n) <==> begun.stale.contains(n) && !placed_by(outcomes, n));
    assert(answered.held.contains(n) <==> begun.held.contains(n) || placed_by(outcomes, n));
    lemma_removals_forget_nothing(answered, set_by(debugger, outcomes), gone, n);
    let numbers = done.held + done.stale;
    placement::law_update_is_read_back(known, path, numbers, path);
    if done.held.contains(n) {
        let i = choose|i: int| 0 <= i < done.held.len() && done.held[i] == n;
        assert(numbers[i] == n);
    }
    if done.stale.contains(n) {
        let i = choose|i: int| 0 <= i < done.stale.len() && done.stale[i] == n;
        assert(numbers[done.held.len() + i] == n);
    }
}

/// A breakpoint that is not set always says why, and the id of one that is set is the number of a
/// breakpoint that the debugger set for its line.
pub proof fn law_unset_breakpoints_are_explained(
    outcome: SetOutcomeView,
    line: u32,
    path: Seq<char>,
)
    ensures
        answer_to(outcome, line, path).verified <==> answer_to(outcome, line, path).id is Some,
        answer_to(outcome, line, path).verified <==> answer_to(outcome, line, path).message is None,
        answer_to(outcome, line, path).line is Some,
        answer_to(outcome, line, path).verified ==> names(
            outcome,
            answer_to(outcome, line, path).id->0 as u32,
        ),
{
    if let SetOutcomeView::Placed(infos) = outcome {
        if infos.len() > 0 {
            assert(infos[infos.len() - 1].number == infos.last().number);
        }
    }
}

/// A line is answered as set exactly if the debugger placed a breakpoint for it. The last one
/// placed is shown: by its number, and at its own line and file where these are known, else at the
/// line that was asked for.
pub proof fn law_placed_breakpoint_is_shown(outcome: SetOutcomeView, line: u32, path: Seq<char>)
    ensures
        ({
            let answer = answer_to(outcome, line, path);
            &&& answer.verified <==> (outcome is Placed && outcome->Placed_0.len() > 0)
            &&& answer.verified ==> {
                let info = outcome->Placed_0.last();
                &&& answer.id == Some(info.number as u64)
                &&& answer.message is None
                &&& match info.place {
                    Some(place) => {
                        &&& answer.line is Some
                        &&& answer.line->0 == place.line_number % 0x1_0000_0000
                        &&& answer.source is Some
                        &&& answer.source->0.path == Some(place.file)
                        &&& answer.source->0.name == text::file_name(place.file)
                    },
                    None => answer.line == Some(line) && answer.source is None,
                }
            }
        }),
{
}

/// A line without a breakpoint is answered at the line that was asked for. Where the debugger
/// placed nothing, the file that was asked for is shown with a general reason; where it refused,
/// its own reason is passed on.
pub proof fn law_unplaced_breakpoint_is_shown(outcome: SetOutcomeView, line: u32, path: Seq<char>)
    ensures
        ({
            let answer = answer_to(outcome, line, path);
            match outcome {
                SetOutcomeView::Placed(infos) => infos.len() == 0 ==> {
                    &&& !answer.verified
                    &&& answer.id is None
                    &&& answer.line == Some(line)
                    &&& answer.source is Some
                    &&& answer.source->0.path == Some(path)
                    &&& answer.source->0.name == text::file_name(path)
                    &&& answer.message == Some("Failed to set breakpoint"@)
                },
                SetOutcomeView::Refused(message) => {
                    &&& !answer.verified
                    &&& answer.id is None
                    &&& answer.line == Some(line)
                    &&& answer.source is None
                    &&& answer.message == Some(message)
                },
            }
        }),
{
}

/// A breakpoint that is converted on its own is shown as one that was placed, or as none.
pub proof fn law_conversion_is_an_answer(
    info: Option<BreakpointInfoView>,
    line: u32,
    path: Seq<char>,
)
    ensures
        shown_breakpoint(info, line, path) == answer_to(
            SetOutcomeView::Placed(
                match info {
                    Some(info) => seq![info],
                    None => Seq::empty(),
                },
            ),
            line,
            path,
        ),
{
    if let Some(info) = info {
        assert(seq![info].last() == info);
    }
}

/// A request asks the debugger for its lines one by one, in order, and for all of them; then for
/// the removal of what is stale, as long as there is any.
pub proof fn law_lines_are_asked_for_in_order(
    known: Seq<PlacedView>,
    path: Seq<char>,
    lines: Seq<u32>,
    outcomes: Seq<SetOutcomeView>,
)
    requires
        outcomes.len() <= lines.len(),
    ensures
        ({
            let batch = BatchView::begun(known, path, lines).recorded_all(outcomes);
            &&& batch.path == path
            &&& batch.lines == lines
            &&& batch.results.len() == outcomes.len()
            &&& outcomes.len() < lines.len() ==> {
                &&& batch.pending_line() == Some(lines[outcomes.len() as int])
                &&& batch.pending_removal() is None
            }
            &&& outcomes.len() == lines.len() ==> {
                &&& batch.pending_line() is None
                &&& batch.pending_removal() is Some <==> batch.stale.len() > 0
            }
        }),
{
    law_every_line_is_answered(BatchView::begun(known, path, lines), outcomes);
}

/// The view of a shown breakpoint tells all its fields; that of a list tells all breakpoints in
/// order.
pub proof fn law_breakpoints_are_seen_whole(breakpoints: Seq<Breakpoint>, i: int)
    requires
        0 <= i < breakpoints.len(),
    ensures
        breakpoints_view(breakpoints).len() == breakpoints.len(),
        breakpoints_view(breakpoints)[i].id == breakpoints[i].id,
        breakpoints_view(breakpoints)[i].verified == breakpoints[i].verified,
        breakpoints_view(breakpoints)[i].line == breakpoints[i].line,
        breakpoints_view(breakpoints)[i].source == frame::source_view(breakpoints[i].source),
        breakpoints_view(breakpoints)[i].message == text::text_view(breakpoints[i].message),
{
}

/// The view of an outcome tells the message of a refusal, or all breakpoints that were placed in
/// order, each with its number and its place.
pub proof fn law_outcomes_are_seen_whole(outcome: SetOutcome, info: Option<BreakpointInfo>, i: int)
    ensures
        match outcome {
            SetOutcome::Placed(infos) => {
                &&& outcome@ is Placed
                &&& outcome@->Placed_0.len() == infos@.len()
                &&& 0 <= i < infos@.len() ==> {
                    &&& outcome@->Placed_0[i].number == infos@[i].number
                    &&& outcome@->Placed_0[i].place == frame::place_view(infos@[i].place)
                }
            },
            SetOutcome::Refused(message) => {
                &&& outcome@ is Refused
                &&& outcome@->Refused_0 == message@
            },
        },
        info is Some <==> info_view(info) is Some,
        info is Some ==> {
            &&& info_view(info)->0.number == info->0.number
            &&& info_view(info)->0.place == frame::place_view(info->0.place)
        },
{
}

/// The view of a batch tells all its fields.
pub proof fn law_batches_are_seen_whole(batch: BreakpointBatch)
    ensures
        batch@.path == batch.path@,
        batch@.lines == batch.lines@,
        batch@.results == breakpoints_view(batch.results@),
        batch@.stale == batch.stale@,
        batch@.held == batch.held@,
{
}

} // verus!

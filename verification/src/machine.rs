//! The step graph and its executor: steps indexed by name, with a start
//! step, walked along the `next` references.

use vstd::prelude::*;
use vstd::hash_map::StringHashMap;
use crate::models::Step;

verus! {

/// A start step and the steps that can follow, indexed by name.
///
/// The start step need not be in the index; looking up a successor consults
/// the index only.
pub struct StateMachine {
    pub start: Step,
    pub steps: StringHashMap<Step>,
}

/// The step that follows `step` in an index: the entry under the name that
/// `step.next` holds. There is none where `step` has no `next`, where `next`
/// is the step's own name, and where the index has no entry under that name.
pub open spec fn next_in(steps: Map<Seq<char>, Step>, step: Step) -> Option<Step> {
    match step.next {
        None => None,
        Some(name) => if name@ == step.name@ {
            None
        } else if steps.contains_key(name@) {
            Some(steps[name@])
        } else {
            None
        },
    }
}

/// An index after a batch of steps was inserted in order, each under its
/// name: a later step takes the place of an earlier one of the same name.
pub open spec fn insert_all(steps: Map<Seq<char>, Step>, batch: Seq<Step>) -> Map<Seq<char>, Step>
    decreases batch.len(),
{
    if batch.len() == 0 {
        steps
    } else {
        insert_all(steps, batch.drop_last()).insert(batch.last().name@, batch.last())
    }
}

/// The step that a walk from `start` stands at after `n` hops along the
/// `next` references, if the walk goes that far.
pub open spec fn nth_step(steps: Map<Seq<char>, Step>, start: Option<Step>, n: nat) -> Option<Step>
    decreases n,
{
    if n == 0 {
        start
    } else {
        match nth_step(steps, start, (n - 1) as nat) {
            Some(step) => next_in(steps, step),
            None => None,
        }
    }
}

/// How a walk ended.
#[derive(Debug, Clone, PartialEq)]
pub enum Ending {
    /// The action of every visited step succeeded and the last one has no successor.
    Completed,
    /// The action of the last visited step failed; this is its `error_on_fail`.
    Failed(String),
    /// The walk used up its hops while there was still a step to visit.
    OutOfHops,
}

/// The mathematical value of an [`Ending`].
pub enum EndingView {
    Completed,
    Failed(Seq<char>),
    OutOfHops,
}

impl View for Ending {
    type V = EndingView;

    open spec fn view(&self) -> EndingView {
        match *self {
            Ending::Completed => EndingView::Completed,
            Ending::Failed(message) => EndingView::Failed(message@),
            Ending::OutOfHops => EndingView::OutOfHops,
        }
    }
}

/// Where a walk stands after the action of a step came back: it goes on at
/// the step's successor, or it has halted, with success or with failure.
#[derive(Debug, Clone, PartialEq)]
pub enum Transition<'a> {
    /// The action succeeded and the step has this successor.
    Running(&'a Step),
    /// The action succeeded and the step has no successor.
    Completed,
    /// The action failed; this is the step's `error_on_fail`.
    Failed(String),
}

/// The mathematical value of a [`Transition`].
pub enum TransitionView {
    Running(Step),
    Completed,
    Failed(Seq<char>),
}

impl<'a> View for Transition<'a> {
    type V = TransitionView;

    open spec fn view(&self) -> TransitionView {
        match *self {
            Transition::Running(next) => TransitionView::Running(*next),
            Transition::Completed => TransitionView::Completed,
            Transition::Failed(message) => TransitionView::Failed(message@),
        }
    }
}

/// The transition that the outcome of a step's action causes: a failure
/// halts the walk with the step's `error_on_fail`, a success leads to the
/// successor, and halts the walk where there is none.
pub open spec fn transition_of(steps: Map<Seq<char>, Step>, step: Step, succeeded: bool)
    -> TransitionView {
    if !succeeded {
        TransitionView::Failed(step.error_on_fail@)
    } else {
        match next_in(steps, step) {
            Some(next) => TransitionView::Running(next),
            None => TransitionView::Completed,
        }
    }
}

/// What a walk did: the steps it visited, in order, and how it ended.
#[derive(Debug, Clone, PartialEq)]
pub struct RunReport<'a> {
    pub visited: Vec<&'a Step>,
    pub ending: Ending,
}

/// Whether `visited` and `ending` describe a walk over `steps` that starts
/// at `start`, visits at most `max_hops` steps, and runs an action on each
/// step it visits. `may(step, ok)` says that the action, run on `step`, can
/// come back with `ok`.
///
/// The walk visits the start step and then follows the `next` references.
/// It goes on while the action succeeds, a successor exists and hops are
/// left, so every visited step but the last saw its action succeed.
pub open spec fn is_walk(
    steps: Map<Seq<char>, Step>,
    start: Option<Step>,
    may: spec_fn(Step, bool) -> bool,
    max_hops: nat,
    visited: Seq<Step>,
    ending: EndingView,
) -> bool {
    &&& visited.len() <= max_hops
    &&& forall|i: int|
        0 <= i < visited.len() ==> nth_step(steps, start, i as nat) == Some(#[trigger] visited[i])
    &&& forall|i: int| 0 <= i < visited.len() - 1 ==> may(#[trigger] visited[i], true)
    &&& match ending {
        EndingView::Completed => {
            &&& nth_step(steps, start, visited.len()) is None
            &&& visited.len() > 0 ==> may(visited.last(), true)
        },
        EndingView::Failed(message) => {
            &&& visited.len() > 0
            &&& may(visited.last(), false)
            &&& message == visited.last().error_on_fail@
        },
        EndingView::OutOfHops => {
            &&& visited.len() == max_hops
            &&& nth_step(steps, start, max_hops) is Some
            &&& visited.len() > 0 ==> may(visited.last(), true)
        },
    }
}

/// The steps that a list of references points to.
pub open spec fn pointees(visited: Seq<&Step>) -> Seq<Step> {
    visited.map_values(|step: &Step| *step)
}

/// The step that an optional reference points to.
pub open spec fn option_pointee(step: Option<&Step>) -> Option<Step> {
    match step {
        Some(step) => Some(*step),
        None => None,
    }
}

impl StateMachine {
    /// A graph of one step: `step` is where walks start, and the index is empty.
    pub fn new(step: Step) -> (r: Self)
        ensures
            r.start == step,
            r.steps@ == Map::<Seq<char>, Step>::empty(),
    {
        StateMachine { start: step, steps: StringHashMap::new() }
    }

    /// Adds a step to the index under its name, in place of any step that
    /// was there under that name.
    pub fn insert(self, step: Step) -> (r: Self)
        ensures
            r.start == self.start,
            r.steps@ == self.steps@.insert(step.name@, step),
    {
        let mut machine = self;
        let name = step.name.clone();
        machine.steps.insert(name, step);
        machine
    }

    /// Adds a batch of steps to the index, in order.
    pub fn insert_batch(self, steps: Vec<Step>) -> (r: Self)
        ensures
            r.start == self.start,
            r.steps@ == insert_all(self.steps@, steps@),
    {
        let mut machine = self;
        let ghost batch = steps@;
        assert(batch.take(0) =~= Seq::<Step>::empty());
        for step in it: steps
            invariant
                machine.start == self.start,
                it.seq() == batch,
                machine.steps@ == insert_all(self.steps@, batch.take(it.index() as int)),
        {
            proof {
                let i = it.index() as int;
                assert(batch.take(i + 1).drop_last() =~= batch.take(i));
                assert(batch.take(i + 1).last() == step);
            }
            let name = step.name.clone();
            machine.steps.insert(name, step);
        }
        assert(batch.take(batch.len() as int) =~= batch);
        machine
    }

    /// Resolves the `next` reference of a step.
    pub fn get_next(&self, step: &Step) -> (r: Option<&Step>)
        ensures
            match r {
                Some(next) => next_in(self.steps@, *step) == Some(*next),
                None => next_in(self.steps@, *step) is None,
            },
    {
        match &step.next {
            None => None,
            Some(name) => {
                if *name == step.name {
                    None
                } else {
                    self.steps.get(name.as_str())
                }
            },
        }
    }

    /// Decides where a walk goes after the action of `step` came back.
    pub fn advance<'a>(&'a self, step: &Step, succeeded: bool) -> (r: Transition<'a>)
        ensures
            r@ == transition_of(self.steps@, *step, succeeded),
    {
        if !succeeded {
            Transition::Failed(step.error_on_fail.clone())
        } else {
            match self.get_next(step) {
                Some(next) => Transition::Running(next),
                None => Transition::Completed,
            }
        }
    }

    /// Walks the graph from `step`: runs `hook` on the current step, and
    /// goes on to its successor where the hook came back with `true` and a
    /// successor exists. The walk visits at most `max_hops` steps; a graph
    /// whose references form a cycle is walked until the hops run out.
    pub fn run_next<'a, F: Fn(&Step) -> bool>(
        &'a self,
        step: Option<&'a Step>,
        hook: F,
        max_hops: usize,
    ) -> (report: RunReport<'a>)
        requires
            forall|s: &Step| #[trigger] call_requires(hook, (s,)),
        ensures
            is_walk(
                self.steps@,
                option_pointee(step),
                |s: Step, ok: bool| call_ensures(hook, (&s,), ok),
                max_hops as nat,
                pointees(report.visited@),
                report.ending@,
            ),
    {
        let ghost start = option_pointee(step);
        let ghost may = |s: Step, ok: bool| call_ensures(hook, (&s,), ok);
        let mut visited: Vec<&'a Step> = Vec::new();
        let mut current: Option<&'a Step> = step;
        assert(pointees(visited@) =~= Seq::<Step>::empty());
        while visited.len() < max_hops
            invariant
                start == option_pointee(step),
                may == (|s: Step, ok: bool| call_ensures(hook, (&s,), ok)),
                forall|s: &Step| #[trigger] call_requires(hook, (s,)),
                visited.len() <= max_hops,
                option_pointee(current) == nth_step(self.steps@, start, visited@.len()),
                forall|i: int|
                    0 <= i < visited@.len() ==> nth_step(self.steps@, start, i as nat) == Some(
                        #[trigger] pointees(visited@)[i],
                    ),
                forall|i: int| 0 <= i < visited@.len() ==> may(#[trigger] pointees(visited@)[i], true),
            decreases max_hops - visited.len(),
        {
            let here = match current {
                Some(here) => here,
                None => {
                    return RunReport { visited, ending: Ending::Completed };
                },
            };
            let ghost before = visited@;
            visited.push(here);
            assert(pointees(visited@) =~= pointees(before).push(*here));
            let succeeded = hook(here);
            match self.advance(here, succeeded) {
                Transition::Failed(message) => {
                    return RunReport { visited, ending: Ending::Failed(message) };
                },
                Transition::Completed => {
                    return RunReport { visited, ending: Ending::Completed };
                },
                Transition::Running(next) => {
                    current = Some(next);
                },
            }
        }
        match current {
            None => RunReport { visited, ending: Ending::Completed },
            Some(_) => RunReport { visited, ending: Ending::OutOfHops },
        }
    }

    /// Walks the graph from its start step; see [`StateMachine::run_next`].
    pub fn run<'a, F: Fn(&Step) -> bool>(&'a self, hook: F, max_hops: usize) -> (report: RunReport<
        'a,
    >)
        requires
            forall|s: &Step| #[trigger] call_requires(hook, (s,)),
        ensures
            is_walk(
                self.steps@,
                Some(self.start),
                |s: Step, ok: bool| call_ensures(hook, (&s,), ok),
                max_hops as nat,
                pointees(report.visited@),
                report.ending@,
            ),
    {
        self.run_next(Some(&self.start), hook, max_hops)
    }
}

/// After a batch was inserted, the index holds under each name the last
/// step of the batch that bears it: a step of the batch is found under its
/// name unless a later step of the batch has the same name.
pub proof fn lemma_last_insert_wins(steps: Map<Seq<char>, Step>, batch: Seq<Step>, i: int)
    requires
        0 <= i < batch.len(),
        forall|j: int| i < j < batch.len() ==> batch[j].name@ != batch[i].name@,
    ensures
        insert_all(steps, batch).contains_key(batch[i].name@),
        insert_all(steps, batch)[batch[i].name@] == batch[i],
    decreases batch.len(),
{
    if i < batch.len() - 1 {
        let shorter = batch.drop_last();
        assert(shorter[i] == batch[i]);
        assert forall|j: int| i < j < shorter.len() implies shorter[j].name@ != shorter[i].name@ by {
            assert(shorter[j] == batch[j]);
        }
        lemma_last_insert_wins(steps, shorter, i);
    }
}

/// Whether no two steps of a batch bear the same name.
pub open spec fn distinct_names(batch: Seq<Step>) -> bool {
    forall|i: int, j: int| 0 <= i < j < batch.len() ==> batch[i].name@ != batch[j].name@
}

/// A name that no step of a batch bears keeps the entry that it had, or
/// stays without one.
pub proof fn lemma_insert_keeps_other_names(
    steps: Map<Seq<char>, Step>,
    batch: Seq<Step>,
    name: Seq<char>,
)
    requires
        forall|i: int| 0 <= i < batch.len() ==> batch[i].name@ != name,
    ensures
        insert_all(steps, batch).contains_key(name) == steps.contains_key(name),
        steps.contains_key(name) ==> insert_all(steps, batch)[name] == steps[name],
    decreases batch.len(),
{
    if batch.len() > 0 {
        let shorter = batch.drop_last();
        assert forall|i: int| 0 <= i < shorter.len() implies shorter[i].name@ != name by {
            assert(shorter[i] == batch[i]);
        }
        lemma_insert_keeps_other_names(steps, shorter, name);
        assert(batch.last() == batch[batch.len() - 1]);
    }
}

/// For steps of distinct names the order of insertion does not matter: two
/// batches that hold the same steps, each name once, give the same index.
pub proof fn lemma_insert_order_is_irrelevant(
    steps: Map<Seq<char>, Step>,
    first: Seq<Step>,
    second: Seq<Step>,
)
    requires
        distinct_names(first),
        distinct_names(second),
        forall|i: int| 0 <= i < first.len() ==> second.contains(#[trigger] first[i]),
        forall|j: int| 0 <= j < second.len() ==> first.contains(#[trigger] second[j]),
    ensures
        insert_all(steps, first) == insert_all(steps, second),
{
    let left = insert_all(steps, first);
    let right = insert_all(steps, second);
    assert forall|name: Seq<char>|
        #[trigger] left.dom().contains(name) == right.dom().contains(name) && (left.dom().contains(
            name,
        ) ==> left[name] == right[name]) by {
        if exists|i: int| 0 <= i < first.len() && first[i].name@ == name {
            let i = choose|i: int| 0 <= i < first.len() && first[i].name@ == name;
            lemma_last_insert_wins(steps, first, i);
            assert(second.contains(first[i]));
            let j = choose|j: int| 0 <= j < second.len() && second[j] == first[i];
            lemma_last_insert_wins(steps, second, j);
        } else {
            assert forall|j: int| 0 <= j < second.len() implies second[j].name@ != name by {
                assert(first.contains(second[j]));
                let i = choose|i: int| 0 <= i < first.len() && first[i] == second[j];
                assert(first[i].name@ == second[j].name@);
            }
            lemma_insert_keeps_other_names(steps, first, name);
            lemma_insert_keeps_other_names(steps, second, name);
        }
    }
    assert(left =~= right);
}

/// Of two steps with one name that are inserted one after the other, only
/// the second is in the index, and a step that refers to that name is
/// followed by the second.
pub proof fn lemma_second_insert_replaces_first(
    steps: Map<Seq<char>, Step>,
    first: Step,
    second: Step,
    from: Step,
)
    requires
        first.name@ == second.name@,
        from.next matches Some(name) && name@ == second.name@,
        from.name@ != second.name@,
    ensures
        insert_all(steps, seq![first, second]) == steps.insert(second.name@, second),
        next_in(insert_all(steps, seq![first, second]), from) == Some(second),
{
    let batch = seq![first, second];
    assert(batch.drop_last() =~= seq![first]);
    assert(seq![first].drop_last() =~= Seq::<Step>::empty());
    reveal_with_fuel(insert_all, 3);
    assert(insert_all(steps, batch) =~= steps.insert(second.name@, second));
}

/// A step without a successor ends the walk that reaches it: a walk that
/// starts there and has a hop to spend visits that step and no other, and
/// does not run out of hops. A step has no successor where it has no
/// `next`, where its `next` is its own name, and where its `next` names no
/// step of the index.
pub proof fn lemma_walk_ends_without_successor(
    steps: Map<Seq<char>, Step>,
    step: Step,
    may: spec_fn(Step, bool) -> bool,
    max_hops: nat,
    visited: Seq<Step>,
    ending: EndingView,
)
    requires
        next_in(steps, step) is None,
        max_hops >= 1,
        is_walk(steps, Some(step), may, max_hops, visited, ending),
    ensures
        visited == seq![step],
        ending is Completed || ending == EndingView::Failed(step.error_on_fail@),
{
    reveal_with_fuel(nth_step, 3);
    assert(nth_step(steps, Some(step), 1) is None);
    if visited.len() >= 2 {
        assert(nth_step(steps, Some(step), 1) == Some(visited[1]));
    }
    assert(nth_step(steps, Some(step), 0) == Some(step));
    assert(visited.len() == 1);
    assert(nth_step(steps, Some(step), 0) == Some(visited[0]));
    assert(visited =~= seq![step]);
}

/// A step whose `next` is its own name has no successor, whatever the index
/// holds: a walk that starts there visits it once and does not go on.
pub proof fn lemma_self_reference_ends_walk(
    steps: Map<Seq<char>, Step>,
    step: Step,
    may: spec_fn(Step, bool) -> bool,
    max_hops: nat,
    visited: Seq<Step>,
    ending: EndingView,
)
    requires
        step.next matches Some(name) && name@ == step.name@,
        max_hops >= 1,
        is_walk(steps, Some(step), may, max_hops, visited, ending),
    ensures
        next_in(steps, step) is None,
        visited == seq![step],
        ending is Completed || ending == EndingView::Failed(step.error_on_fail@),
{
    lemma_walk_ends_without_successor(steps, step, may, max_hops, visited, ending);
}

/// A step whose `next` names no step of the index has no successor, and
/// that is no failure: a walk that starts there visits it and ends as the
/// step's own action decides.
pub proof fn lemma_dangling_reference_ends_walk(
    steps: Map<Seq<char>, Step>,
    step: Step,
    may: spec_fn(Step, bool) -> bool,
    max_hops: nat,
    visited: Seq<Step>,
    ending: EndingView,
)
    requires
        step.next matches Some(name) && !steps.contains_key(name@),
        max_hops >= 1,
        is_walk(steps, Some(step), may, max_hops, visited, ending),
    ensures
        next_in(steps, step) is None,
        transition_of(steps, step, true) is Completed,
        visited == seq![step],
        !may(step, false) ==> ending is Completed,
{
    lemma_walk_ends_without_successor(steps, step, may, max_hops, visited, ending);
}

/// Two steps `a` and `b`, of which `a` refers to `b` and `b` to nothing,
/// inserted into an empty index in either order: where both actions
/// succeed, a walk from `a` with two hops or more visits `a`, then `b`, and
/// completes.
pub proof fn lemma_walk_of_two(
    a: Step,
    b: Step,
    batch: Seq<Step>,
    may: spec_fn(Step, bool) -> bool,
    max_hops: nat,
    visited: Seq<Step>,
    ending: EndingView,
)
    requires
        a.next matches Some(name) && name@ == b.name@,
        a.name@ != b.name@,
        b.next is None,
        batch == seq![a, b] || batch == seq![b, a],
        !may(a, false),
        !may(b, false),
        max_hops >= 2,
        is_walk(insert_all(Map::empty(), batch), Some(a), may, max_hops, visited, ending),
    ensures
        visited == seq![a, b],
        ending is Completed,
{
    let steps = insert_all(Map::empty(), batch);
    if batch == seq![a, b] {
        lemma_last_insert_wins(Map::empty(), batch, 1);
    } else {
        lemma_last_insert_wins(Map::empty(), batch, 0);
    }
    assert(next_in(steps, a) == Some(b));
    assert(next_in(steps, b) is None);
    lemma_walk_visits_two(steps, a, b, may, max_hops, visited, ending);
}

/// Where `b` follows `a` and the action succeeds on `a` but fails on `b`, a
/// walk from `a` with two hops or more visits `a`, then `b`, and no step
/// after it, and ends with the `error_on_fail` of `b`.
pub proof fn lemma_failure_halts_walk(
    steps: Map<Seq<char>, Step>,
    a: Step,
    b: Step,
    may: spec_fn(Step, bool) -> bool,
    max_hops: nat,
    visited: Seq<Step>,
    ending: EndingView,
)
    requires
        next_in(steps, a) == Some(b),
        !may(a, false),
        !may(b, true),
        max_hops >= 2,
        is_walk(steps, Some(a), may, max_hops, visited, ending),
    ensures
        visited == seq![a, b],
        ending == EndingView::Failed(b.error_on_fail@),
{
    lemma_walk_visits_two(steps, a, b, may, max_hops, visited, ending);
    if visited.len() >= 3 {
        assert(may(visited[1], true));
    }
    assert(visited =~= seq![a, b]);
}

/// Where `b` follows `a` and the action cannot fail on `a`, a walk from `a`
/// with two hops or more starts with `a`, then `b`; it visits a third step
/// only where the action can succeed on `b` and `b` has a successor.
proof fn lemma_walk_visits_two(
    steps: Map<Seq<char>, Step>,
    a: Step,
    b: Step,
    may: spec_fn(Step, bool) -> bool,
    max_hops: nat,
    visited: Seq<Step>,
    ending: EndingView,
)
    requires
        next_in(steps, a) == Some(b),
        !may(a, false),
        max_hops >= 2,
        is_walk(steps, Some(a), may, max_hops, visited, ending),
    ensures
        visited.len() >= 2,
        visited[0] == a,
        visited[1] == b,
        visited.len() >= 3 ==> may(b, true) && next_in(steps, b) is Some,
        next_in(steps, b) is None && !may(b, false) ==> visited == seq![a, b] && ending
            is Completed,
{
    reveal_with_fuel(nth_step, 4);
    assert(nth_step(steps, Some(a), 0) == Some(a));
    assert(nth_step(steps, Some(a), 1) == Some(b));
    assert(nth_step(steps, Some(a), 2) == next_in(steps, b));
    assert(visited.len() >= 1);
    assert(nth_step(steps, Some(a), 0) == Some(visited[0]));
    assert(visited.len() >= 2);
    assert(nth_step(steps, Some(a), 1) == Some(visited[1]));
    if visited.len() >= 3 {
        assert(may(visited[1], true));
        assert(nth_step(steps, Some(a), 2) == Some(visited[2]));
    }
    if next_in(steps, b) is None && !may(b, false) {
        assert(visited =~= seq![a, b]);
    }
}

} // verus!

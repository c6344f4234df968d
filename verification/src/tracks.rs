//! Box trackers: an ordered run of filled boxes, each holding a severity.
use vstd::prelude::*;

verus! {

/// The severity that one filled box holds. A box that is not filled is not
/// stored at all, so there is no variant for it.
#[derive(Clone, Copy, Debug, PartialEq, Eq, Structural, PartialOrd, Ord, Hash)]
pub enum TrackerState {
    One,
    Two,
    Three,
}

/// The filled boxes of one resource, first box first, and the number of boxes
/// that the sheet draws for it. `max` is advice for display: nothing here
/// keeps the number of filled boxes under it.
#[derive(Clone, Debug)]
pub struct Tracker {
    pub max: u64,
    pub values: Vec<TrackerState>,
}

/// What a tracker is, mathematically.
pub ghost struct TrackerModel {
    pub max: int,
    pub values: Seq<TrackerState>,
}

impl View for Tracker {
    type V = TrackerModel;

    open spec fn view(&self) -> TrackerModel {
        TrackerModel { max: self.max as int, values: self.values@ }
    }
}

/// How many boxes of `s` hold `state`.
pub open spec fn occurrences(s: Seq<TrackerState>, state: TrackerState) -> nat
    decreases s.len(),
{
    if s.len() == 0 {
        0
    } else {
        occurrences(s.drop_last(), state) + if s.last() == state { 1nat } else { 0nat }
    }
}

/// `i` is the position of the last box of `s` that holds `state`.
pub open spec fn is_last_occurrence(s: Seq<TrackerState>, state: TrackerState, i: int) -> bool {
    &&& 0 <= i < s.len()
    &&& s[i] == state
    &&& forall|j: int| i < j < s.len() ==> s[j] != state
}

/// `s` without its last box that holds `state`; `s` itself where no box does.
pub open spec fn without_last(s: Seq<TrackerState>, state: TrackerState) -> Seq<TrackerState> {
    if exists|i: int| is_last_occurrence(s, state, i) {
        s.remove(choose|i: int| is_last_occurrence(s, state, i))
    } else {
        s
    }
}

/// `without_last`, `n` times over.
pub open spec fn without_last_n(s: Seq<TrackerState>, state: TrackerState, n: nat) -> Seq<
    TrackerState,
>
    decreases n,
{
    if n == 0 {
        s
    } else {
        without_last(without_last_n(s, state, (n - 1) as nat), state)
    }
}

/// `s` after an edit of the box at `index` alone: the box holds `state`, or
/// with `remove` it is gone. Where `s` has no such box it is `s` itself.
pub open spec fn with_box(
    s: Seq<TrackerState>,
    state: TrackerState,
    index: int,
    remove: bool,
) -> Seq<TrackerState> {
    if !(0 <= index < s.len()) {
        s
    } else if remove {
        s.remove(index)
    } else {
        s.update(index, state)
    }
}

/// `n` boxes, each holding `state`.
pub open spec fn run_of(state: TrackerState, n: nat) -> Seq<TrackerState> {
    Seq::new(n, |i: int| state)
}

/// The boxes after a click on box `index` that fills with `state`.
///
/// With `overrideValues` the old boxes are dropped and `index` boxes are
/// filled. Otherwise a click at or past the end fills up to and including box
/// `index`; a click below the end takes away one box of `state` for each
/// position from `index` to the end, and puts one back when that was more
/// than one position.
pub open spec fn fill_level(
    s: Seq<TrackerState>,
    index: nat,
    state: TrackerState,
    overrideValues: bool,
) -> Seq<TrackerState> {
    if overrideValues {
        run_of(state, index)
    } else if index >= s.len() {
        s + run_of(state, (index + 1 - s.len()) as nat)
    } else {
        let n = (s.len() - index) as nat;
        let rest = without_last_n(s, state, n);
        if n > 1 {
            rest.push(state)
        } else {
            rest
        }
    }
}

/// A sequence has at most one last occurrence of a state.
pub proof fn lemma_last_occurrence_unique(
    s: Seq<TrackerState>,
    state: TrackerState,
    i: int,
    k: int,
)
    requires
        is_last_occurrence(s, state, i),
        is_last_occurrence(s, state, k),
    ensures
        i == k,
{
    if i < k {
        assert(s[k] != state);
    } else if k < i {
        assert(s[i] != state);
    }
}

/// Taking away the last box of a state, seen from the end of the run: where
/// the last box holds the state it is the one that goes; else the last box
/// stays and the box goes from the run before it.
pub proof fn lemma_without_last_unfold(s: Seq<TrackerState>, state: TrackerState)
    requires
        s.len() > 0,
    ensures
        without_last(s, state) == if s.last() == state {
            s.drop_last()
        } else {
            without_last(s.drop_last(), state).push(s.last())
        },
{
    let front = s.drop_last();
    if s.last() == state {
        let i = s.len() - 1;
        assert(is_last_occurrence(s, state, i));
        lemma_last_occurrence_unique(s, state, i, choose|k: int| is_last_occurrence(s, state, k));
        assert(s.remove(i) =~= front);
    } else if exists|i: int| is_last_occurrence(s, state, i) {
        let i = choose|i: int| is_last_occurrence(s, state, i);
        assert(is_last_occurrence(front, state, i));
        lemma_last_occurrence_unique(
            front,
            state,
            i,
            choose|k: int| is_last_occurrence(front, state, k),
        );
        assert(s.remove(i) =~= front.remove(i).push(s.last()));
    } else {
        if exists|k: int| is_last_occurrence(front, state, k) {
            let k = choose|k: int| is_last_occurrence(front, state, k);
            assert forall|j: int| k < j < s.len() implies s[j] != state by {
                if j < front.len() {
                    assert(front[j] != state);
                }
            }
            assert(s[k] == front[k]);
            assert(is_last_occurrence(s, state, k));
        }
        assert(front.push(s.last()) =~= s);
    }
}

/// Taking away the last box of a state shortens the run by one box of that
/// state, and leaves a run alone that has none.
pub proof fn lemma_without_last(s: Seq<TrackerState>, state: TrackerState)
    ensures
        occurrences(s, state) == 0 ==> without_last(s, state) == s,
        occurrences(s, state) > 0 ==> without_last(s, state).len() == s.len() - 1
            && occurrences(without_last(s, state), state) == occurrences(s, state) - 1,
    decreases s.len(),
{
    if s.len() == 0 {
        assert(forall|i: int| !is_last_occurrence(s, state, i));
    } else {
        let front = s.drop_last();
        lemma_without_last_unfold(s, state);
        if s.last() != state {
            lemma_without_last(front, state);
            let shorter = without_last(front, state);
            assert(shorter.push(s.last()).drop_last() =~= shorter);
            assert(front.push(s.last()) =~= s);
        }
    }
}

/// Taking away the last box of a state `n` times takes away as many boxes of
/// it as there are, up to `n`.
pub proof fn lemma_without_last_n(s: Seq<TrackerState>, state: TrackerState, n: nat)
    ensures
        n <= occurrences(s, state) ==> without_last_n(s, state, n).len() == s.len() - n
            && occurrences(without_last_n(s, state, n), state) == occurrences(s, state) - n,
        n >= occurrences(s, state) ==> without_last_n(s, state, n).len() == s.len()
            - occurrences(s, state) && occurrences(without_last_n(s, state, n), state) == 0,
    decreases n,
{
    if n > 0 {
        lemma_without_last_n(s, state, (n - 1) as nat);
        lemma_without_last(without_last_n(s, state, (n - 1) as nat), state);
    }
}

/// A run that ends in its only box of a state loses exactly that box, however
/// often the last box of that state is taken away.
pub proof fn lemma_without_last_n_single(s: Seq<TrackerState>, state: TrackerState, n: nat)
    requires
        occurrences(s, state) == 0,
        n >= 1,
    ensures
        without_last_n(s.push(state), state, n) == s,
    decreases n,
{
    if n == 1 {
        assert(without_last_n(s.push(state), state, 0) == s.push(state));
        lemma_without_last_unfold(s.push(state), state);
        assert(s.push(state).drop_last() =~= s);
    } else {
        lemma_without_last_n_single(s, state, (n - 1) as nat);
        lemma_without_last(s, state);
    }
}

/// The number of boxes after a click on box `index`, for a tracker of `len`
/// boxes of which `held` hold the state of the click: `index` with
/// `overrideValues`; one more than `index` for a click at or past the end;
/// and for a click below the end `len`, less the boxes of the state that were
/// there to empty, one for each position from `index` on, and one more where
/// that was more than one position.
pub open spec fn fill_level_len(len: int, held: int, index: int, overrideValues: bool) -> int {
    if overrideValues {
        index
    } else if index >= len {
        index + 1
    } else {
        let positions = len - index;
        let emptied = if held < positions {
            held
        } else {
            positions
        };
        let refilled: int = if positions > 1 {
            1
        } else {
            0
        };
        len - emptied + refilled
    }
}

/// A click leaves as many boxes as `fill_level_len` says.
pub proof fn law_fill_level_len(
    s: Seq<TrackerState>,
    index: nat,
    state: TrackerState,
    overrideValues: bool,
)
    ensures
        fill_level(s, index, state, overrideValues).len() == fill_level_len(
            s.len() as int,
            occurrences(s, state) as int,
            index as int,
            overrideValues,
        ),
{
    if !overrideValues && index < s.len() {
        lemma_without_last_n(s, state, (s.len() - index) as nat);
    }
}

/// A click below the end, on a tracker with fewer boxes of `state` than there
/// are positions from `index` on, gives a tracker that the same click leaves
/// as it is.
pub proof fn law_fill_level_twice(s: Seq<TrackerState>, index: nat, state: TrackerState)
    requires
        occurrences(s, state) < s.len() - index,
    ensures
        fill_level(fill_level(s, index, state, false), index, state, false) == fill_level(
            s,
            index,
            state,
            false,
        ),
{
    let positions = (s.len() - index) as nat;
    let rest = without_last_n(s, state, positions);
    lemma_without_last_n(s, state, positions);
    if positions == 1 {
        assert(without_last_n(s, state, 0) == s);
        lemma_without_last(s, state);
    } else {
        let once = rest.push(state);
        lemma_without_last_n_single(rest, state, (once.len() - index) as nat);
    }
}

/// Where the click of `law_fill_level_twice` meets a tracker that it does not
/// describe, the second click undoes the first by one box: the first leaves
/// `index + 1` boxes and the second `index`, or the first leaves `index` boxes
/// and the second `index + 1`.
pub proof fn law_fill_level_toggles(s: Seq<TrackerState>, index: nat, state: TrackerState)
    requires
        occurrences(s, state) >= s.len() - index,
    ensures
        ({
            let once = fill_level(s, index, state, false);
            let twice = fill_level(once, index, state, false);
            if s.len() == index + 1 {
                once.len() == index && twice.len() == index + 1
            } else {
                once.len() == index + 1 && twice.len() == index
            }
        }),
{
    let once = fill_level(s, index, state, false);
    law_fill_level_len(s, index, state, false);
    law_fill_level_len(once, index, state, false);
    if index >= s.len() {
        lemma_occurrences_run(s, state, (index + 1 - s.len()) as nat);
    } else {
        let positions = (s.len() - index) as nat;
        lemma_without_last_n(s, state, positions);
        if positions > 1 {
            let rest = without_last_n(s, state, positions);
            assert(rest.push(state).drop_last() =~= rest);
        }
    }
}

/// Filling `n` more boxes with a state adds `n` boxes of it.
pub proof fn lemma_occurrences_run(s: Seq<TrackerState>, state: TrackerState, n: nat)
    ensures
        occurrences(s + run_of(state, n), state) == occurrences(s, state) + n,
    decreases n,
{
    let whole = s + run_of(state, n);
    if n == 0 {
        assert(whole =~= s);
    } else {
        lemma_occurrences_run(s, state, (n - 1) as nat);
        assert(whole.drop_last() =~= s + run_of(state, (n - 1) as nat));
    }
}

impl Tracker {
    /// A tracker with no box filled.
    pub fn new(max: u64) -> (tracker: Tracker)
        ensures
            tracker@ == (TrackerModel { max: max as int, values: Seq::empty() }),
    {
        Tracker { max, values: Vec::new() }
    }

    /// Fills one more box, after the others.
    pub fn add(&mut self, state: TrackerState)
        ensures
            final(self)@ == (TrackerModel {
                values: old(self)@.values.push(state),
                ..old(self)@
            }),
    {
        self.values.push(state);
    }

    /// Empties the last box that holds `state`, if there is one.
    pub fn remove(&mut self, state: TrackerState)
        ensures
            final(self)@ == (TrackerModel {
                values: without_last(old(self)@.values, state),
                ..old(self)@
            }),
    {
        let mut i: usize = self.values.len();
        while i > 0
            invariant
                i <= self.values.len(),
                *self == *old(self),
                forall|j: int| i <= j < self.values.len() ==> self.values@[j] != state,
            decreases i,
        {
            i -= 1;
            if self.values[i] == state {
                proof {
                    let s = self.values@;
                    assert(is_last_occurrence(s, state, i as int));
                    let k = choose|k: int| is_last_occurrence(s, state, k);
                    lemma_last_occurrence_unique(s, state, i as int, k);
                }
                self.values.remove(i);
                return ;
            }
        }
        assert(forall|k: int| !is_last_occurrence(self.values@, state, k));
    }

    /// Acts on the box at `index` alone: fills it with `state`, or with
    /// `remove` takes it out of the run. A tracker that has no such box stays
    /// as it is.
    pub fn update(&mut self, state: TrackerState, index: usize, remove: bool)
        ensures
            final(self)@ == (TrackerModel {
                values: with_box(old(self)@.values, state, index as int, remove),
                ..old(self)@
            }),
    {
        if index < self.values.len() {
            if remove {
                self.values.remove(index);
            } else {
                self.values[index] = state;
            }
        }
    }

    /// Sets the number of boxes that the sheet draws. The filled boxes stay.
    pub fn updateMax(&mut self, max: u64)
        ensures
            final(self)@ == (TrackerModel { max: max as int, ..old(self)@ }),
    {
        self.max = max;
    }
}

} // verus!

use vstd::prelude::*;

use crate::acc::all::reversed;
use crate::acc::{
    AccState, AccumulatorKind, AllState, MostAcc, appended, appended_naive, dropped, most_fold,
    most_passed_over, passed_over, pushed, pushed_naive, stores, takes,
};
use crate::contextual::Contextual;
use crate::iter::ContextualIter;
use crate::laws::law_push_reports_storage;
use crate::traits::Prioritized;

verus! {

/// An accumulator state whose policy is chosen at run time.
#[derive(Debug, Clone)]
pub enum AccumulatorState<T, C> {
    /// A state that keeps every item.
    All(AllState<T, C>),
    /// A state that keeps the item of highest priority.
    Most(MostAcc<T, C>),
}

impl<T, C> View for AccumulatorState<T, C> {
    type V = Seq<Contextual<T, C>>;

    open spec fn view(&self) -> Seq<Contextual<T, C>> {
        match self {
            AccumulatorState::All(state) => state@,
            AccumulatorState::Most(state) => state@,
        }
    }
}

impl<T, C> AccumulatorState<T, C> {
    /// The policy of the state.
    pub open spec fn spec_kind(&self) -> AccumulatorKind {
        match self {
            AccumulatorState::All(_) => AccumulatorKind::All,
            AccumulatorState::Most(_) => AccumulatorKind::Most,
        }
    }

    /// A `Most` state never holds more than one item.
    pub proof fn lemma_most_holds_at_most_one(&self)
        ensures
            self.spec_kind() == AccumulatorKind::Most ==> self@.len() <= 1,
    {
        if let AccumulatorState::Most(state) = self {
            state.lemma_at_most_one();
        }
    }

    /// Creates an empty state of the given policy.
    pub fn new(kind: AccumulatorKind) -> (state: Self)
        ensures
            state@ == Seq::<Contextual<T, C>>::empty(),
            state.spec_kind() == kind,
    {
        match kind {
            AccumulatorKind::All => AccumulatorState::All(AllState::new()),
            AccumulatorKind::Most => AccumulatorState::Most(MostAcc::new()),
        }
    }

    /// The policy of the state.
    pub fn kind(&self) -> (kind: AccumulatorKind)
        ensures
            kind == self.spec_kind(),
    {
        match self {
            AccumulatorState::All(_) => AccumulatorKind::All,
            AccumulatorState::Most(_) => AccumulatorKind::Most,
        }
    }

    /// A cursor over the items, in order.
    pub fn iter(&self) -> (iter: ContextualIter<'_, T, C>)
        ensures
            iter@ == self@,
    {
        match self {
            AccumulatorState::All(state) => state.iter(),
            AccumulatorState::Most(state) => state.iter(),
        }
    }

    /// Applies `map` to the value of every item, keeping policy, contexts and order.
    pub fn map<U, F: Fn(T) -> U>(self, map: F) -> (mapped: AccumulatorState<U, C>)
        requires
            forall|i: int| 0 <= i < self@.len() ==> call_requires(map, (#[trigger] self@[i].value,)),
        ensures
            mapped.spec_kind() == self.spec_kind(),
            mapped@.len() == self@.len(),
            forall|i: int|
                0 <= i < self@.len() ==> (#[trigger] mapped@[i]).context == self@[i].context
                    && call_ensures(map, (self@[i].value,), mapped@[i].value),
    {
        match self {
            AccumulatorState::All(state) => {
                assert forall|i: int| 0 <= i < state@.len() implies call_requires(
                    map,
                    (#[trigger] state@[i].value,),
                ) by {
                    assert(self@[i] == state@[i]);
                }
                AccumulatorState::All(state.map(map))
            },
            AccumulatorState::Most(state) => {
                assert forall|i: int| 0 <= i < state@.len() implies call_requires(
                    map,
                    (#[trigger] state@[i].value,),
                ) by {
                    assert(self@[i] == state@[i]);
                }
                AccumulatorState::Most(state.map(map))
            },
        }
    }

    /// Reserves room for at least `additional` more items.
    pub fn reserve(&mut self, additional: usize)
        ensures
            final(self)@ == old(self)@,
            final(self).spec_kind() == old(self).spec_kind(),
    {
        match self {
            AccumulatorState::All(state) => state.reserve(additional),
            AccumulatorState::Most(state) => state.reserve(additional),
        }
    }

    /// Pushes `value` without looking at priorities.
    /// Returns `true` if it was stored without losing anything.
    pub fn push_naive(&mut self, value: Contextual<T, C>) -> (stored: bool)
        ensures
            final(self).spec_kind() == old(self).spec_kind(),
            final(self)@ == pushed_naive(old(self).spec_kind(), old(self)@, value),
            stored == stores(old(self).spec_kind(), old(self)@),
    {
        match self {
            AccumulatorState::All(state) => state.push_naive(value),
            AccumulatorState::Most(state) => state.push_naive(value),
        }
    }

    /// Appends the items of `other` without looking at priorities.
    /// Returns the number of items of `other` that were left out.
    pub fn append_naive(&mut self, other: Self) -> (ignored: usize)
        ensures
            final(self).spec_kind() == old(self).spec_kind(),
            final(self)@ == appended_naive(old(self).spec_kind(), old(self)@, other@),
            ignored == dropped(old(self).spec_kind(), old(self)@, other@),
    {
        proof {
            other.lemma_most_holds_at_most_one();
        }
        match self {
            AccumulatorState::All(state) => {
                match other {
                    AccumulatorState::All(other) => state.append_naive(other),
                    AccumulatorState::Most(other) => {
                        if let Some(item) = other.into_option() {
                            state.push_naive(item);
                        }
                        0
                    },
                }
            },
            AccumulatorState::Most(state) => {
                if !state.is_empty() {
                    other.len()
                } else if other.is_empty() {
                    0
                } else {
                    let len = other.len();
                    let mut items = other.into_vec();
                    let first = items.remove(0);
                    state.push_naive(first);
                    len - 1
                }
            },
        }
    }

    /// The items, in order.
    pub fn into_vec(self) -> (items: Vec<Contextual<T, C>>)
        ensures
            items@ == self@,
    {
        match self {
            AccumulatorState::All(state) => state.into_vec(),
            AccumulatorState::Most(state) => state.into_vec(),
        }
    }
}

impl<T: Prioritized, C> AccumulatorState<T, C> {
    /// Pushes `value`, respecting priorities.
    /// Returns `true` if `value` was stored: always for `All`; for `Most` when the state was
    /// empty or when `value` replaced an item of strictly lower priority.
    pub fn push(&mut self, value: Contextual<T, C>) -> (stored: bool)
        ensures
            final(self).spec_kind() == old(self).spec_kind(),
            final(self)@ == pushed(old(self).spec_kind(), old(self)@, value),
            stored == takes(old(self).spec_kind(), old(self)@, value),
            stored == (final(self)@ != old(self)@),
            stored ==> final(self)@.len() > 0 && final(self)@.last() == value,
            old(self).spec_kind() == AccumulatorKind::All ==> stored,
    {
        proof {
            self.lemma_most_holds_at_most_one();
            law_push_reports_storage(self.spec_kind(), self@, value);
        }
        match self {
            AccumulatorState::All(state) => state.push(value),
            AccumulatorState::Most(state) => state.offer(value),
        }
    }

    /// Pushes `value`, respecting priorities, and reports whether nothing was lost: `false`
    /// when `value` was left out and also when it pushed out the item held.
    pub(crate) fn push_counting(&mut self, value: Contextual<T, C>) -> (lossless: bool)
        ensures
            final(self).spec_kind() == old(self).spec_kind(),
            final(self)@ == pushed(old(self).spec_kind(), old(self)@, value),
            lossless == stores(old(self).spec_kind(), old(self)@),
    {
        match self {
            AccumulatorState::All(state) => state.push(value),
            AccumulatorState::Most(state) => state.push(value),
        }
    }

    /// Appends the items of `other`, respecting priorities.
    /// Returns the number of items of `other` that were not stored.
    pub fn append(&mut self, other: Self) -> (ignored: usize)
        ensures
            final(self).spec_kind() == old(self).spec_kind(),
            final(self)@ == appended(old(self).spec_kind(), old(self)@, other@),
            ignored == passed_over(old(self).spec_kind(), old(self)@, other@),
    {
        match self {
            AccumulatorState::All(_) => self.append_naive(other),
            AccumulatorState::Most(state) => {
                let (untaken, _) = push_each_into_most(state, other);
                untaken
            },
        }
    }

    /// Appends the items of `other`, respecting priorities, and reports how many items
    /// were lost: left out, or pushed out by a later item.
    pub(crate) fn append_counting(&mut self, other: Self) -> (lost: usize)
        ensures
            final(self).spec_kind() == old(self).spec_kind(),
            final(self)@ == appended(old(self).spec_kind(), old(self)@, other@),
            lost == dropped(old(self).spec_kind(), old(self)@, other@),
    {
        match self {
            AccumulatorState::All(_) => self.append_naive(other),
            AccumulatorState::Most(state) => {
                let (_, lost) = push_each_into_most(state, other);
                lost
            },
        }
    }
}

/// Offers each item of `other`, in order, to a `Most` state. Returns how many items were
/// not taken, and how many were lost (not taken, or pushed out later).
fn push_each_into_most<T: Prioritized, C>(
    state: &mut MostAcc<T, C>,
    other: AccumulatorState<T, C>,
) -> (counts: (usize, usize))
    ensures
        final(state)@ == most_fold(old(state)@, other@),
        counts.0 == most_passed_over(old(state)@, other@),
        counts.1 == dropped(AccumulatorKind::Most, old(state)@, other@),
{
    proof {
        state.lemma_at_most_one();
    }
    let ghost kept = state@;
    let items = other.into_vec();
    let ghost all = items@;
    let n = items.len();
    let mut rev = reversed(items);
    let mut untaken: usize = 0;
    let mut lost: usize = 0;
    let mut i: usize = 0;
    while i < n
        invariant
            n == all.len(),
            i <= n,
            rev@.len() == n - i,
            forall|k: int| 0 <= k < rev@.len() ==> #[trigger] rev@[k] == all[n - 1 - k],
            kept.len() <= 1,
            state@ == most_fold(kept, all.take(i as int)),
            untaken == most_passed_over(kept, all.take(i as int)),
            lost == dropped(AccumulatorKind::Most, kept, all.take(i as int)),
            untaken <= i,
            lost <= i,
        decreases n - i,
    {
        let item = rev.pop().unwrap();
        proof {
            assert(item == all[i as int]);
            assert(all.take(i + 1).drop_last() =~= all.take(i as int));
            assert(all.take(i + 1).last() == item);
            lemma_most_fold_nonempty(kept, all.take(i as int));
            state.lemma_at_most_one();
        }
        let was_empty = state.is_empty();
        if !state.offer(item) {
            untaken = untaken + 1;
        }
        if !was_empty {
            lost = lost + 1;
        }
        i = i + 1;
    }
    assert(all.take(i as int) =~= all);
    (untaken, lost)
}

/// Folding pushes into a non-empty `Most` state, or folding at least one push, gives a
/// state that holds exactly one item.
pub proof fn lemma_most_fold_nonempty<T: Prioritized, C>(
    kept: Seq<Contextual<T, C>>,
    items: Seq<Contextual<T, C>>,
)
    requires
        kept.len() <= 1,
    ensures
        most_fold(kept, items).len() <= 1,
        (kept.len() == 1 || items.len() > 0) ==> most_fold(kept, items).len() == 1,
    decreases items.len(),
{
    if items.len() > 0 {
        lemma_most_fold_nonempty(kept, items.drop_last());
    }
}

impl<T, C> AccState<T, C> for AccumulatorState<T, C> {
    open spec fn spec_items(&self) -> Seq<Contextual<T, C>> {
        self@
    }

    open spec fn spec_kind(&self) -> AccumulatorKind {
        self.spec_kind()
    }

    fn is_empty(&self) -> (empty: bool) {
        match self {
            AccumulatorState::All(state) => state.is_empty(),
            AccumulatorState::Most(state) => state.is_empty(),
        }
    }

    fn len(&self) -> (len: usize) {
        match self {
            AccumulatorState::All(state) => state.len(),
            AccumulatorState::Most(state) => state.len(),
        }
    }

    fn into_state(self) -> (state: AccumulatorState<T, C>) {
        self
    }
}

} // verus!

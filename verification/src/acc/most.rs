use vstd::prelude::*;

use crate::acc::{AccState, AccumulatorKind, AccumulatorState, dropped, most_step, takes};
use crate::contextual::Contextual;
use crate::iter::ContextualIter;
use crate::traits::{Prioritized, PriorityLevel};

verus! {

/// An accumulator state that keeps a single item: the first one of highest priority.
#[derive(Debug, Clone, PartialEq, Eq)]
pub struct MostAcc<T, C>(Option<Contextual<T, C>>);

impl<T, C> View for MostAcc<T, C> {
    type V = Seq<Contextual<T, C>>;

    closed spec fn view(&self) -> Seq<Contextual<T, C>> {
        match self.0 {
            Some(item) => seq![item],
            None => seq![],
        }
    }
}

impl<T, C> MostAcc<T, C> {
    /// A `Most` state never holds more than one item.
    pub proof fn lemma_at_most_one(&self)
        ensures
            self@.len() <= 1,
    {
    }

    /// Creates an empty state.
    pub fn new() -> (state: Self)
        ensures
            state@ == Seq::<Contextual<T, C>>::empty(),
    {
        MostAcc(None)
    }

    /// A cursor over the item, if any.
    pub fn iter(&self) -> (iter: ContextualIter<'_, T, C>)
        ensures
            iter@ == self@,
    {
        ContextualIter::new(self.0.as_slice())
    }

    /// Applies `map` to the value of the item, if any.
    pub fn map<U, F: Fn(T) -> U>(self, map: F) -> (mapped: MostAcc<U, C>)
        requires
            forall|i: int| 0 <= i < self@.len() ==> call_requires(map, (#[trigger] self@[i].value,)),
        ensures
            mapped@.len() == self@.len(),
            forall|i: int|
                0 <= i < self@.len() ==> (#[trigger] mapped@[i]).context == self@[i].context
                    && call_ensures(map, (self@[i].value,), mapped@[i].value),
    {
        match self.0 {
            Some(item) => {
                assert(self@[0] == item);
                let value = map(item.value);
                MostAcc(Some(Contextual { context: item.context, value }))
            },
            None => MostAcc(None),
        }
    }

    /// Reserving has nothing to do for a single slot.
    pub fn reserve(&mut self, _additional: usize)
        ensures
            final(self)@ == old(self)@,
    {
    }

    /// Stores `value` if the state is empty; otherwise leaves the state as it is.
    /// Returns whether `value` was stored.
    pub fn push_naive(&mut self, value: Contextual<T, C>) -> (stored: bool)
        ensures
            stored == (old(self)@.len() == 0),
            stored ==> final(self)@ == seq![value],
            !stored ==> final(self)@ == old(self)@,
    {
        if self.0.is_none() {
            self.0 = Some(value);
            true
        } else {
            false
        }
    }

    /// Takes the item of `other` if this state is empty; otherwise keeps its own item.
    /// Returns the number of items of `other` left out.
    pub fn append_naive(&mut self, other: Self) -> (ignored: usize)
        ensures
            old(self)@.len() == 0 ==> final(self)@ == other@,
            old(self)@.len() != 0 ==> final(self)@ == old(self)@,
            ignored == dropped(AccumulatorKind::Most, old(self)@, other@),
    {
        if self.0.is_some() {
            if other.0.is_some() {
                1
            } else {
                0
            }
        } else {
            self.0 = other.0;
            0
        }
    }

    /// The item, if any.
    pub fn into_option(self) -> (item: Option<Contextual<T, C>>)
        ensures
            item is Some <==> self@.len() == 1,
            item is Some ==> self@ == seq![item->0],
    {
        self.0
    }

    /// The items, in order.
    pub fn into_vec(self) -> (items: Vec<Contextual<T, C>>)
        ensures
            items@ == self@,
    {
        let mut items = Vec::new();
        if let Some(item) = self.0 {
            items.push(item);
        }
        items
    }
}

impl<T: Prioritized, C> MostAcc<T, C> {
    /// Offers `value`, respecting priorities: an empty state takes it, a held item of
    /// strictly lower priority is replaced by it, and otherwise it is left out.
    /// Returns whether `value` was taken.
    pub(crate) fn offer(&mut self, value: Contextual<T, C>) -> (taken: bool)
        ensures
            final(self)@ == most_step(old(self)@, value),
            taken == takes(AccumulatorKind::Most, old(self)@, value),
    {
        match &self.0 {
            None => {
                self.0 = Some(value);
                true
            },
            Some(held) => {
                let held_level = held.priority().level();
                let new_level = value.priority().level();
                if held_level < new_level {
                    self.0 = Some(value);
                    true
                } else {
                    false
                }
            },
        }
    }

    /// Pushes `value`, respecting priorities: an empty state stores it, a held item of
    /// strictly lower priority is replaced by it, and otherwise it is left out.
    /// Returns `true` only when nothing was lost, that is when the state was empty.
    pub fn push(&mut self, value: Contextual<T, C>) -> (stored: bool)
        ensures
            final(self)@ == most_step(old(self)@, value),
            stored == (old(self)@.len() == 0),
    {
        let was_empty = self.0.is_none();
        self.offer(value);
        was_empty
    }

    /// Pushes the item of `other`, if any, respecting priorities.
    /// Returns the number of items left out or pushed out (0 or 1).
    pub fn append(&mut self, other: Self) -> (ignored: usize)
        ensures
            other@.len() == 0 ==> final(self)@ == old(self)@,
            other@.len() == 1 ==> final(self)@ == most_step(old(self)@, other@[0]),
            ignored == dropped(AccumulatorKind::Most, old(self)@, other@),
    {
        match other.0 {
            None => 0,
            Some(item) => {
                if self.push(item) {
                    0
                } else {
                    1
                }
            },
        }
    }
}

impl<T, C> AccState<T, C> for MostAcc<T, C> {
    open spec fn spec_items(&self) -> Seq<Contextual<T, C>> {
        self@
    }

    open spec fn spec_kind(&self) -> AccumulatorKind {
        AccumulatorKind::Most
    }

    fn is_empty(&self) -> (empty: bool) {
        self.0.is_none()
    }

    fn len(&self) -> (len: usize) {
        if self.0.is_some() {
            1
        } else {
            0
        }
    }

    fn into_state(self) -> (state: AccumulatorState<T, C>) {
        AccumulatorState::Most(self)
    }
}

} // verus!

use vstd::prelude::*;

use crate::acc::{AccState, AccumulatorKind, AccumulatorState};
use crate::contextual::Contextual;
use crate::iter::ContextualIter;
use crate::traits::Prioritized;

verus! {

/// Reverses a vector.
pub(crate) fn reversed<X>(items: Vec<X>) -> (rev: Vec<X>)
    ensures
        rev@.len() == items@.len(),
        forall|k: int| 0 <= k < items@.len() ==> #[trigger] rev@[k] == items@[items@.len() - 1 - k],
{
    let ghost orig = items@;
    let mut rest = items;
    let mut rev: Vec<X> = Vec::new();
    while rest.len() > 0
        invariant
            rest@.len() + rev@.len() == orig.len(),
            forall|i: int| 0 <= i < rest@.len() ==> #[trigger] rest@[i] == orig[i],
            forall|k: int| 0 <= k < rev@.len() ==> #[trigger] rev@[k] == orig[orig.len() - 1 - k],
        decreases rest@.len(),
    {
        let item = rest.pop().unwrap();
        rev.push(item);
    }
    rev
}

/// Applies `map` to the value of every item, keeping contexts and order.
pub(crate) fn map_items<T, U, C, F: Fn(T) -> U>(items: Vec<Contextual<T, C>>, map: F) -> (mapped:
    Vec<Contextual<U, C>>)
    requires
        forall|i: int| 0 <= i < items@.len() ==> call_requires(map, (#[trigger] items@[i].value,)),
    ensures
        mapped@.len() == items@.len(),
        forall|i: int|
            0 <= i < items@.len() ==> (#[trigger] mapped@[i]).context == items@[i].context
                && call_ensures(map, (items@[i].value,), mapped@[i].value),
{
    let ghost orig = items@;
    let mut rev = reversed(items);
    let mut mapped: Vec<Contextual<U, C>> = Vec::new();
    while rev.len() > 0
        invariant
            rev@.len() + mapped@.len() == orig.len(),
            forall|k: int| 0 <= k < rev@.len() ==> #[trigger] rev@[k] == orig[orig.len() - 1 - k],
            forall|i: int| 0 <= i < orig.len() ==> call_requires(map, (#[trigger] orig[i].value,)),
            forall|i: int|
                0 <= i < mapped@.len() ==> (#[trigger] mapped@[i]).context == orig[i].context
                    && call_ensures(map, (orig[i].value,), mapped@[i].value),
        decreases rev@.len(),
    {
        let ghost at = mapped@.len() as int;
        let item = rev.pop().unwrap();
        assert(item == orig[at]);
        let value = map(item.value);
        mapped.push(Contextual { context: item.context, value });
    }
    mapped
}

/// An accumulator state that keeps every item, in order.
#[derive(Debug, Clone)]
pub struct AllState<T, C>(Vec<Contextual<T, C>>);

impl<T, C> View for AllState<T, C> {
    type V = Seq<Contextual<T, C>>;

    closed spec fn view(&self) -> Seq<Contextual<T, C>> {
        self.0@
    }
}

impl<T, C> AllState<T, C> {
    /// Creates an empty state.
    pub fn new() -> (state: Self)
        ensures
            state@ == Seq::<Contextual<T, C>>::empty(),
    {
        AllState(Vec::new())
    }

    /// A cursor over the items, in order.
    pub fn iter(&self) -> (iter: ContextualIter<'_, T, C>)
        ensures
            iter@ == self@,
    {
        ContextualIter::new(self.0.as_slice())
    }

    /// Applies `map` to the value of every item.
    pub fn map<U, F: Fn(T) -> U>(self, map: F) -> (mapped: AllState<U, C>)
        requires
            forall|i: int| 0 <= i < self@.len() ==> call_requires(map, (#[trigger] self@[i].value,)),
        ensures
            mapped@.len() == self@.len(),
            forall|i: int|
                0 <= i < self@.len() ==> (#[trigger] mapped@[i]).context == self@[i].context
                    && call_ensures(map, (self@[i].value,), mapped@[i].value),
    {
        assert forall|i: int| 0 <= i < self.0@.len() implies call_requires(
            map,
            (#[trigger] self.0@[i].value,),
        ) by {
            assert(self@[i] == self.0@[i]);
        }
        AllState(map_items(self.0, map))
    }

    /// Reserves room for at least `additional` more items.
    pub fn reserve(&mut self, additional: usize)
        ensures
            final(self)@ == old(self)@,
    {
        self.0.reserve(additional);
    }

    /// Appends an item; always stores it.
    pub fn push_naive(&mut self, value: Contextual<T, C>) -> (stored: bool)
        ensures
            final(self)@ == old(self)@.push(value),
            stored,
    {
        self.0.push(value);
        true
    }

    /// Appends every item of `other`; nothing is ignored, so it returns 0.
    pub fn append_naive(&mut self, other: Self) -> (ignored: usize)
        ensures
            final(self)@ == old(self)@ + other@,
            ignored == 0,
    {
        let mut other = other;
        self.0.append(&mut other.0);
        0
    }

    /// The items, in order.
    pub fn into_vec(self) -> (items: Vec<Contextual<T, C>>)
        ensures
            items@ == self@,
    {
        self.0
    }
}

impl<T: Prioritized, C> AllState<T, C> {
    /// Appends an item; priorities do not matter when everything is kept.
    pub fn push(&mut self, value: Contextual<T, C>) -> (stored: bool)
        ensures
            final(self)@ == old(self)@.push(value),
            stored,
    {
        self.push_naive(value)
    }

    /// Appends every item of `other`; priorities do not matter when everything is kept.
    pub fn append(&mut self, other: Self) -> (ignored: usize)
        ensures
            final(self)@ == old(self)@ + other@,
            ignored == 0,
    {
        self.append_naive(other)
    }
}

impl<T, C> AccState<T, C> for AllState<T, C> {
    open spec fn spec_items(&self) -> Seq<Contextual<T, C>> {
        self@
    }

    open spec fn spec_kind(&self) -> AccumulatorKind {
        AccumulatorKind::All
    }

    fn is_empty(&self) -> (empty: bool) {
        self.0.len() == 0
    }

    fn len(&self) -> (len: usize) {
        self.0.len()
    }

    fn into_state(self) -> (state: AccumulatorState<T, C>) {
        AccumulatorState::All(self)
    }
}

} // verus!

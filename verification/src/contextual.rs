use vstd::prelude::*;

use crate::acc::{
    AccState, AccumulatorKind, AccumulatorState, appended, appended_naive, dropped, pushed,
    pushed_naive, stores,
};
use crate::context::NoLoc;
use crate::iter::ContextualIter;
use crate::text::{decimal, decimal_text, joined_lines};
use crate::traits::Prioritized;
use vstd::string::*;

verus! {

/// A value paired with the context in which it was produced.
#[derive(Debug, Clone, PartialEq, Eq)]
#[non_exhaustive]
pub struct Contextual<T, C = NoLoc> {
    /// The context associated with the value.
    pub context: C,
    /// The inner value.
    pub value: T,
}

impl<T, C> Contextual<T, C> {
    /// Pairs `value` with `context`.
    pub fn new(context: C, value: T) -> (made: Self)
        ensures
            made.context == context,
            made.value == value,
    {
        Contextual { context, value }
    }

    /// Maps the value with `map`, keeping the context.
    pub fn map<U, F: FnOnce(T) -> U>(self, map: F) -> (mapped: Contextual<U, C>)
        requires
            call_requires(map, (self.value,)),
        ensures
            mapped.context == self.context,
            call_ensures(map, (self.value,), mapped.value),
    {
        Contextual { context: self.context, value: map(self.value) }
    }

    /// References to the context and the value.
    pub fn as_ref(&self) -> (refs: Contextual<&T, &C>)
        ensures
            *refs.context == self.context,
            *refs.value == self.value,
    {
        Contextual { context: &self.context, value: &self.value }
    }

    /// Renders the item as `{context}: {value}`, where `{context}` and `{value}` are given
    /// by `show_context` and `show_value`.
    pub fn render<FC: Fn(&C) -> String, FV: Fn(&T) -> String>(
        &self,
        show_context: FC,
        show_value: FV,
    ) -> (text: String)
        requires
            call_requires(show_context, (&self.context,)),
            call_requires(show_value, (&self.value,)),
        ensures
            exists|context: String, value: String|
                call_ensures(show_context, (&self.context,), context) && call_ensures(
                    show_value,
                    (&self.value,),
                    value,
                ) && text@ == rendered_line(context, value),
    {
        let context = show_context(&self.context);
        let value = show_value(&self.value);
        let mut text = String::new();
        text.append(context.as_str());
        text.append(": ");
        text.append(value.as_str());
        assert(text@ == rendered_line(context, value));
        text
    }
}

/// The text of one item: `{context}: {value}`.
pub open spec fn rendered_line(context: String, value: String) -> Seq<char> {
    context@ + ": "@ + value@
}

/// The lines of items whose contexts and values were shown as `contexts` and `values`.
pub open spec fn rendered_lines(contexts: Seq<String>, values: Seq<String>) -> Seq<Seq<char>> {
    Seq::new(contexts.len(), |i: int| rendered_line(contexts[i], values[i]))
}

/// The note on ignored items that ends a rendering: nothing when none was ignored, and
/// otherwise `... {count} ignored`, on a line of its own after any item.
pub open spec fn ignored_note(count: usize, after_items: bool) -> Seq<char> {
    if count == 0 {
        Seq::empty()
    } else {
        (if after_items {
            "\n"@
        } else {
            Seq::empty()
        }) + "... "@ + decimal(count as nat) + " ignored"@
    }
}

impl<T: Prioritized, C> Prioritized for Contextual<T, C> {
    type Priority = T::Priority;

    open spec fn spec_priority(&self) -> T::Priority {
        self.value.spec_priority()
    }

    fn priority(&self) -> (priority: T::Priority) {
        self.value.priority()
    }
}

/// `a + b`, capped at `usize::MAX`.
pub open spec fn capped_add(a: usize, b: int) -> usize {
    if a + b > usize::MAX {
        usize::MAX
    } else {
        (a + b) as usize
    }
}

/// The abstract state of a [`Contextuals`]: its policy, the items it keeps, and how many
/// items it left out or pushed out (a count that stops at `usize::MAX`).
pub struct Accumulated<T, C> {
    /// The accumulation policy.
    pub kind: AccumulatorKind,
    /// The items kept, in order.
    pub items: Seq<Contextual<T, C>>,
    /// The number of items left out or pushed out.
    pub ignored: usize,
}

impl<T, C> Accumulated<T, C> {
    /// Every item handed to the accumulator: those kept and those counted as ignored.
    pub open spec fn total(self) -> int {
        self.items.len() + self.ignored
    }

    /// The state after pushing `value` without looking at priorities.
    pub open spec fn push_naive(self, value: Contextual<T, C>) -> Self {
        Accumulated {
            kind: self.kind,
            items: pushed_naive(self.kind, self.items, value),
            ignored: if stores(self.kind, self.items) {
                self.ignored
            } else {
                capped_add(self.ignored, 1)
            },
        }
    }

    /// The state after appending `other` without looking at priorities.
    pub open spec fn append_naive(self, other: Self) -> Self {
        Accumulated {
            kind: self.kind,
            items: appended_naive(self.kind, self.items, other.items),
            ignored: capped_add(
                self.ignored,
                dropped(self.kind, self.items, other.items) + other.ignored,
            ),
        }
    }
}

impl<T: Prioritized, C> Accumulated<T, C> {
    /// The state after pushing `value`, respecting priorities.
    pub open spec fn push(self, value: Contextual<T, C>) -> Self {
        Accumulated {
            kind: self.kind,
            items: pushed(self.kind, self.items, value),
            ignored: if stores(self.kind, self.items) {
                self.ignored
            } else {
                capped_add(self.ignored, 1)
            },
        }
    }

    /// The state after appending `other`, respecting priorities.
    pub open spec fn append(self, other: Self) -> Self {
        Accumulated {
            kind: self.kind,
            items: appended(self.kind, self.items, other.items),
            ignored: capped_add(
                self.ignored,
                dropped(self.kind, self.items, other.items) + other.ignored,
            ),
        }
    }
}

/// A contextual accumulator: collects `Contextual` items under a policy, and counts the
/// items that the policy left out.
#[derive(Debug, Clone)]
#[non_exhaustive]
pub struct Contextuals<T, C = NoLoc> {
    state: AccumulatorState<T, C>,
    ignored: usize,
}

impl<T, C> View for Contextuals<T, C> {
    type V = Accumulated<T, C>;

    closed spec fn view(&self) -> Accumulated<T, C> {
        Accumulated { kind: self.state.spec_kind(), items: self.state@, ignored: self.ignored }
    }
}

impl<T, C> Contextuals<T, C> {
    /// A `Most` accumulator never keeps more than one item.
    pub proof fn lemma_most_keeps_at_most_one(&self)
        ensures
            self@.kind == AccumulatorKind::Most ==> self@.items.len() <= 1,
    {
        self.state.lemma_most_holds_at_most_one();
    }

    /// Creates an accumulator holding the items of `state`, with nothing ignored yet.
    pub fn new<S: AccState<T, C>>(state: S) -> (made: Self)
        ensures
            made@ == (Accumulated { kind: state.spec_kind(), items: state.spec_items(), ignored: 0 }),
    {
        Contextuals { state: state.into_state(), ignored: 0 }
    }

    /// The accumulation policy.
    pub fn kind(&self) -> (kind: AccumulatorKind)
        ensures
            kind == self@.kind,
    {
        self.state.kind()
    }

    /// Returns `true` if no item is kept.
    pub fn is_empty(&self) -> (empty: bool)
        ensures
            empty == (self@.items.len() == 0),
    {
        self.state.is_empty()
    }

    /// The number of items kept.
    pub fn len(&self) -> (len: usize)
        ensures
            len == self@.items.len(),
    {
        self.state.len()
    }

    /// The number of items left out or pushed out.
    pub fn ignored(&self) -> (ignored: usize)
        ensures
            ignored == self@.ignored,
    {
        self.ignored
    }

    /// A cursor over the items kept, in order.
    pub fn iter(&self) -> (iter: ContextualIter<'_, T, C>)
        ensures
            iter@ == self@.items,
    {
        self.state.iter()
    }

    /// Applies `map` to the value of every item kept.
    pub fn map<U, F: Fn(T) -> U>(self, map: F) -> (mapped: Contextuals<U, C>)
        requires
            forall|i: int|
                0 <= i < self@.items.len() ==> call_requires(map, (#[trigger] self@.items[i].value,)),
        ensures
            mapped@.kind == self@.kind,
            mapped@.ignored == self@.ignored,
            mapped@.items.len() == self@.items.len(),
            forall|i: int|
                0 <= i < self@.items.len() ==> (#[trigger] mapped@.items[i]).context
                    == self@.items[i].context && call_ensures(
                    map,
                    (self@.items[i].value,),
                    mapped@.items[i].value,
                ),
    {
        assert forall|i: int| 0 <= i < self.state@.len() implies call_requires(
            map,
            (#[trigger] self.state@[i].value,),
        ) by {
            assert(self@.items[i] == self.state@[i]);
        }
        Contextuals { state: self.state.map(map), ignored: self.ignored }
    }

    /// Reserves room for at least `additional` more items.
    pub fn reserve(&mut self, additional: usize)
        ensures
            final(self)@ == old(self)@,
    {
        self.state.reserve(additional);
    }

    /// Pushes `value` without looking at priorities; counts it as ignored if it is not
    /// stored.
    pub fn push_naive(&mut self, value: Contextual<T, C>)
        ensures
            final(self)@ == old(self)@.push_naive(value),
    {
        if !self.state.push_naive(value) {
            self.ignored = self.ignored.saturating_add(1);
        }
    }

    /// Appends the items of `other` without looking at priorities; the items left out and
    /// the items `other` had ignored are added to the ignored count.
    pub fn append_naive(&mut self, other: Self)
        ensures
            final(self)@ == old(self)@.append_naive(other@),
    {
        let left_out = self.state.append_naive(other.state);
        self.ignored = self.ignored.saturating_add(left_out.saturating_add(other.ignored));
    }

    /// The items kept, in order.
    pub fn into_vec(self) -> (items: Vec<Contextual<T, C>>)
        ensures
            items@ == self@.items,
    {
        self.state.into_vec()
    }

    /// Renders one line `{context}: {value}` per item, then, if any item was ignored, a
    /// line `... {count} ignored`.
    pub fn render<FC: Fn(&C) -> String, FV: Fn(&T) -> String>(
        &self,
        show_context: FC,
        show_value: FV,
    ) -> (text: String)
        requires
            forall|i: int|
                0 <= i < self@.items.len() ==> call_requires(
                    show_context,
                    (&(#[trigger] self@.items[i]).context,),
                ) && call_requires(show_value, (&self@.items[i].value,)),
        ensures
            exists|contexts: Seq<String>, values: Seq<String>|
                contexts.len() == self@.items.len() && values.len() == self@.items.len() && (forall|
                    i: int,
                |
                    0 <= i < self@.items.len() ==> call_ensures(
                        show_context,
                        (&(#[trigger] self@.items[i]).context,),
                        contexts[i],
                    ) && call_ensures(show_value, (&self@.items[i].value,), values[i])) && text@
                    == joined_lines(rendered_lines(contexts, values)) + ignored_note(
                    self@.ignored,
                    self@.items.len() > 0,
                ),
    {
        let ghost items = self@.items;
        let n = self.len();
        let mut it = self.iter();
        let mut text = String::new();
        let ghost mut contexts: Seq<String> = Seq::empty();
        let ghost mut values: Seq<String> = Seq::empty();
        let mut i: usize = 0;
        while i < n
            invariant
                n == items.len(),
                i <= n,
                it@ == items.skip(i as int),
                contexts.len() == i,
                values.len() == i,
                forall|j: int|
                    0 <= j < items.len() ==> call_requires(
                        show_context,
                        (&(#[trigger] items[j]).context,),
                    ) && call_requires(show_value, (&items[j].value,)),
                forall|j: int|
                    0 <= j < i ==> call_ensures(
                        show_context,
                        (&(#[trigger] items[j]).context,),
                        contexts[j],
                    ) && call_ensures(show_value, (&items[j].value,), values[j]),
                text@ == joined_lines(rendered_lines(contexts, values)),
            decreases n - i,
        {
            let ghost lines = rendered_lines(contexts, values);
            let item = it.next().unwrap();
            assert(items.skip(i as int)[0] == items[i as int]);
            assert(items.skip(i as int).drop_first() =~= items.skip(i + 1));
            let context = show_context(item.context);
            let value = show_value(item.value);
            if i > 0 {
                text.append("\n");
            }
            text.append(context.as_str());
            text.append(": ");
            text.append(value.as_str());
            proof {
                contexts = contexts.push(context);
                values = values.push(value);
                let new_lines = rendered_lines(contexts, values);
                assert(new_lines.drop_last() =~= lines);
                assert(new_lines.last() == rendered_line(context, value));
                if i == 0 {
                    assert(lines =~= Seq::<Seq<char>>::empty());
                }
            }
            i = i + 1;
        }
        if self.ignored > 0 {
            if n > 0 {
                text.append("\n");
            }
            text.append("... ");
            let count = decimal_text(self.ignored);
            text.append(count.as_str());
            text.append(" ignored");
        }
        text
    }
}

impl<T: Prioritized, C> Contextuals<T, C> {
    /// Pushes `value`, respecting priorities; counts an item as ignored when one is left
    /// out or pushed out.
    pub fn push(&mut self, value: Contextual<T, C>)
        ensures
            final(self)@ == old(self)@.push(value),
    {
        if !self.state.push_counting(value) {
            self.ignored = self.ignored.saturating_add(1);
        }
    }

    /// Appends the items of `other`, respecting priorities; the items left out and the
    /// items `other` had ignored are added to the ignored count.
    pub fn append(&mut self, other: Self)
        ensures
            final(self)@ == old(self)@.append(other@),
    {
        let left_out = self.state.append_counting(other.state);
        self.ignored = self.ignored.saturating_add(left_out.saturating_add(other.ignored));
    }

    /// Pushes each of `items` in order, respecting priorities.
    pub fn extend(&mut self, items: Vec<Contextual<T, C>>)
        ensures
            final(self)@ == extended(old(self)@, items@),
    {
        let ghost start = self@;
        let ghost all = items@;
        let n = items.len();
        self.state.reserve(n);
        let mut rev = crate::acc::all::reversed(items);
        let mut i: usize = 0;
        while i < n
            invariant
                n == all.len(),
                i <= n,
                rev@.len() == n - i,
                forall|k: int| 0 <= k < rev@.len() ==> #[trigger] rev@[k] == all[n - 1 - k],
                self@ == extended(start, all.take(i as int)),
            decreases n - i,
        {
            let item = rev.pop().unwrap();
            assert(item == all[i as int]);
            assert(all.take(i + 1).drop_last() =~= all.take(i as int));
            self.push(item);
            i = i + 1;
        }
        assert(all.take(n as int) =~= all);
    }
}

/// The state after pushing each of `items` in order, respecting priorities.
pub open spec fn extended<T: Prioritized, C>(
    start: Accumulated<T, C>,
    items: Seq<Contextual<T, C>>,
) -> Accumulated<T, C>
    decreases items.len(),
{
    if items.len() == 0 {
        start
    } else {
        extended(start, items.drop_last()).push(items.last())
    }
}

} // verus!

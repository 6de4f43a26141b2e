//! Accumulation policies: `All` keeps every item, `Most` keeps the single item of highest
//! priority.
use vstd::prelude::*;

use crate::contextual::Contextual;
use crate::traits::{Prioritized, rank};

pub mod all;
pub mod most;
pub mod state;

pub use self::all::AllState;
pub use self::most::MostAcc;
pub use self::state::AccumulatorState;

verus! {

/// The accumulation policy of a state.
#[derive(Debug, Copy, Clone, Eq, PartialEq, Hash, Structural)]
pub enum AccumulatorKind {
    /// Keeps every item, in order.
    All,
    /// Keeps a single item: the first one of highest priority.
    Most,
}

/// The accumulation policy that keeps every item.
#[derive(Debug, Copy, Clone, Eq, PartialEq, Hash)]
pub struct All;

/// The accumulation policy that keeps only the item of highest priority.
#[derive(Debug, Copy, Clone, Eq, PartialEq, Hash)]
pub struct Most;

/// The default accumulation policy.
pub type DefaultAcc = All;

/// A policy that creates accumulator states.
pub trait Acc {
    /// The policy of the states this creates.
    spec fn spec_policy() -> AccumulatorKind;

    /// Creates an empty state of this policy.
    fn create_state<T, C>() -> (state: AccumulatorState<T, C>)
        ensures
            state@ == Seq::<Contextual<T, C>>::empty(),
            state.spec_kind() == Self::spec_policy(),
    ;
}

impl Acc for All {
    open spec fn spec_policy() -> AccumulatorKind {
        AccumulatorKind::All
    }

    fn create_state<T, C>() -> (state: AccumulatorState<T, C>) {
        AccumulatorState::new(AccumulatorKind::All)
    }
}

impl Acc for Most {
    open spec fn spec_policy() -> AccumulatorKind {
        AccumulatorKind::Most
    }

    fn create_state<T, C>() -> (state: AccumulatorState<T, C>) {
        AccumulatorState::new(AccumulatorKind::Most)
    }
}

/// An accumulator state: a sequence of contextual items kept under one policy.
pub trait AccState<T, C>: Sized {
    /// The items held, in order.
    spec fn spec_items(&self) -> Seq<Contextual<T, C>>;

    /// The policy of the state.
    spec fn spec_kind(&self) -> AccumulatorKind;

    /// Returns `true` if the state holds no item.
    fn is_empty(&self) -> (empty: bool)
        ensures
            empty == (self.spec_items().len() == 0),
    ;

    /// The number of items held.
    fn len(&self) -> (len: usize)
        ensures
            len == self.spec_items().len(),
    ;

    /// Turns the state into an [`AccumulatorState`] of the same policy and items.
    fn into_state(self) -> (state: AccumulatorState<T, C>)
        ensures
            state@ == self.spec_items(),
            state.spec_kind() == self.spec_kind(),
    ;
}

/// The state of a `Most` accumulator after a priority-respecting push of `value`: it is
/// replaced only by a strictly higher priority.
pub open spec fn most_step<T: Prioritized, C>(
    kept: Seq<Contextual<T, C>>,
    value: Contextual<T, C>,
) -> Seq<Contextual<T, C>> {
    if kept.len() == 0 {
        seq![value]
    } else if rank(kept[0].value) < rank(value.value) {
        seq![value]
    } else {
        kept
    }
}

/// The state of a `Most` accumulator after pushing each of `items` in order.
pub open spec fn most_fold<T: Prioritized, C>(
    kept: Seq<Contextual<T, C>>,
    items: Seq<Contextual<T, C>>,
) -> Seq<Contextual<T, C>>
    decreases items.len(),
{
    if items.len() == 0 {
        kept
    } else {
        most_step(most_fold(kept, items.drop_last()), items.last())
    }
}

/// Whether a push into a state of `kind` holding `kept` stores the new item without
/// dropping anything.
pub open spec fn stores<T, C>(kind: AccumulatorKind, kept: Seq<Contextual<T, C>>) -> bool {
    kind == AccumulatorKind::All || kept.len() == 0
}

/// Whether a priority-respecting push into a state of `kind` holding `kept` takes `value`:
/// `All` always does; `Most` does when it is empty or when `value` has a strictly higher
/// priority than the item it holds, which it then replaces.
pub open spec fn takes<T: Prioritized, C>(
    kind: AccumulatorKind,
    kept: Seq<Contextual<T, C>>,
    value: Contextual<T, C>,
) -> bool {
    kind == AccumulatorKind::All || kept.len() == 0 || rank(kept[0].value) < rank(value.value)
}

/// How many of `items`, pushed in order into a `Most` state holding `kept`, are not taken.
pub open spec fn most_passed_over<T: Prioritized, C>(
    kept: Seq<Contextual<T, C>>,
    items: Seq<Contextual<T, C>>,
) -> nat
    decreases items.len(),
{
    if items.len() == 0 {
        0
    } else {
        most_passed_over(kept, items.drop_last()) + if takes(
            AccumulatorKind::Most,
            most_fold(kept, items.drop_last()),
            items.last(),
        ) {
            0nat
        } else {
            1nat
        }
    }
}

/// How many items of `other` a priority-respecting append leaves untaken: none for `All`;
/// for `Most`, those neither filling the empty state nor replacing a lower priority.
pub open spec fn passed_over<T: Prioritized, C>(
    kind: AccumulatorKind,
    kept: Seq<Contextual<T, C>>,
    other: Seq<Contextual<T, C>>,
) -> nat {
    match kind {
        AccumulatorKind::All => 0,
        AccumulatorKind::Most => most_passed_over(kept, other),
    }
}

/// The items after a push that ignores priorities.
pub open spec fn pushed_naive<T, C>(
    kind: AccumulatorKind,
    kept: Seq<Contextual<T, C>>,
    value: Contextual<T, C>,
) -> Seq<Contextual<T, C>> {
    match kind {
        AccumulatorKind::All => kept.push(value),
        AccumulatorKind::Most => if kept.len() == 0 {
            seq![value]
        } else {
            kept
        },
    }
}

/// The items after a priority-respecting push.
pub open spec fn pushed<T: Prioritized, C>(
    kind: AccumulatorKind,
    kept: Seq<Contextual<T, C>>,
    value: Contextual<T, C>,
) -> Seq<Contextual<T, C>> {
    match kind {
        AccumulatorKind::All => kept.push(value),
        AccumulatorKind::Most => most_step(kept, value),
    }
}

/// The items after appending `other` while ignoring priorities.
pub open spec fn appended_naive<T, C>(
    kind: AccumulatorKind,
    kept: Seq<Contextual<T, C>>,
    other: Seq<Contextual<T, C>>,
) -> Seq<Contextual<T, C>> {
    match kind {
        AccumulatorKind::All => kept + other,
        AccumulatorKind::Most => if kept.len() == 0 && other.len() > 0 {
            seq![other[0]]
        } else {
            kept
        },
    }
}

/// The items after a priority-respecting append of `other`.
pub open spec fn appended<T: Prioritized, C>(
    kind: AccumulatorKind,
    kept: Seq<Contextual<T, C>>,
    other: Seq<Contextual<T, C>>,
) -> Seq<Contextual<T, C>> {
    match kind {
        AccumulatorKind::All => kept + other,
        AccumulatorKind::Most => most_fold(kept, other),
    }
}

/// How many items an append of `other` leaves out (or pushes out), with or without
/// priorities: none for `All`; for `Most`, every item but the one that fills an empty
/// state.
pub open spec fn dropped<T, C>(
    kind: AccumulatorKind,
    kept: Seq<Contextual<T, C>>,
    other: Seq<Contextual<T, C>>,
) -> nat {
    match kind {
        AccumulatorKind::All => 0,
        AccumulatorKind::Most => if kept.len() == 0 {
            if other.len() == 0 {
                0
            } else {
                (other.len() - 1) as nat
            }
        } else {
            other.len()
        },
    }
}

} // verus!

//! Properties of the accumulators and of `Trisult` that span several operations.
use vstd::prelude::*;

use crate::acc::{
    AccumulatorKind, appended, appended_naive, dropped, most_fold, passed_over, pushed,
    pushed_naive, takes,
};
use crate::acc::state::lemma_most_fold_nonempty;
use crate::contextual::{Accumulated, Contextual, capped_add, extended};
use crate::diagnosis::{
    Diagnosis, Severity, all_warnings, as_diagnoses, unwrapped_warnings, warning_diagnoses,
};
use crate::traits::{Prioritized, PriorityLevel, rank};
use crate::trisult::{Trisult, chained};

verus! {

/// A state that respects its policy: a `Most` state keeps at most one item.
pub open spec fn well_formed<T, C>(state: Accumulated<T, C>) -> bool {
    state.kind == AccumulatorKind::Most ==> state.items.len() <= 1
}

proof fn lemma_capped_twice(x: usize, a: int, b: int)
    requires
        a >= 0,
        b >= 0,
    ensures
        capped_add(capped_add(x, a), b) == capped_add(x, a + b),
{
}

/// Pushing items one by one with priorities is the same as appending them all at once:
/// for `All` the items are added in order, for `Most` the state folds them, and the items
/// left out are counted the same way.
pub proof fn law_extend_is_append<T: Prioritized, C>(
    start: Accumulated<T, C>,
    items: Seq<Contextual<T, C>>,
)
    requires
        well_formed(start),
    ensures
        extended(start, items) == start.append(
            Accumulated { kind: start.kind, items: items, ignored: 0 },
        ),
    decreases items.len(),
{
    let other = Accumulated { kind: start.kind, items: items, ignored: 0usize };
    if items.len() == 0 {
        assert(start.items + items =~= start.items);
    } else {
        let rest = items.drop_last();
        law_extend_is_append(start, rest);
        let before = extended(start, rest);
        match start.kind {
            AccumulatorKind::All => {
                assert(start.items + rest + seq![items.last()] =~= start.items + items);
                assert(before.items.push(items.last()) =~= start.items + items);
            },
            AccumulatorKind::Most => {
                lemma_most_fold_nonempty(start.items, rest);
                lemma_capped_twice(start.ignored, dropped(start.kind, start.items, rest) as int, 1);
            },
        }
    }
}

/// Accounting: a push hands exactly one item to the accumulator, which either keeps it or
/// counts one item as ignored (unless the count is already at its cap).
pub proof fn law_push_accounts_for_one<T: Prioritized, C>(
    state: Accumulated<T, C>,
    value: Contextual<T, C>,
)
    requires
        well_formed(state),
        state.ignored < usize::MAX,
    ensures
        well_formed(state.push(value)),
        state.push(value).total() == state.total() + 1,
        well_formed(state.push_naive(value)),
        state.push_naive(value).total() == state.total() + 1,
{
}

/// Accounting: appending hands every item of `other`, and its ignored count, to the
/// accumulator; none goes missing (unless the count reaches its cap).
pub proof fn law_append_accounts_for_all<T: Prioritized, C>(
    state: Accumulated<T, C>,
    other: Accumulated<T, C>,
)
    requires
        well_formed(state),
        well_formed(other),
        state.ignored + other.total() <= usize::MAX,
    ensures
        well_formed(state.append(other)),
        state.append(other).total() == state.total() + other.total(),
        well_formed(state.append_naive(other)),
        state.append_naive(other).total() == state.total() + other.total(),
{
    if state.kind == AccumulatorKind::Most {
        lemma_most_fold_nonempty(state.items, other.items);
    }
}

/// The `Most` policy keeps the first item of highest priority among all the items pushed
/// into an empty state.
pub proof fn law_most_keeps_first_highest<T: Prioritized, C>(items: Seq<Contextual<T, C>>)
    requires
        items.len() > 0,
    ensures
        exists|j: int|
            0 <= j < items.len() && most_fold(Seq::empty(), items) == seq![items[j]] && (forall|
                k: int,
            | 0 <= k < items.len() ==> rank(#[trigger] items[k].value) <= rank(items[j].value))
                && (forall|k: int| 0 <= k < j ==> rank(#[trigger] items[k].value) < rank(items[j].value)),
    decreases items.len(),
{
    let rest = items.drop_last();
    let last = items.last();
    if rest.len() == 0 {
        assert(most_fold(Seq::<Contextual<T, C>>::empty(), rest) == Seq::<Contextual<T, C>>::empty());
        assert(last == items[0]);
        assert(most_fold(Seq::empty(), items) == seq![items[0]]);
    } else {
        law_most_keeps_first_highest(rest);
        let j = choose|j: int|
            0 <= j < rest.len() && most_fold(Seq::empty(), rest) == seq![rest[j]] && (forall|k: int|
                0 <= k < rest.len() ==> rank(#[trigger] rest[k].value) <= rank(rest[j].value)) && (
            forall|k: int| 0 <= k < j ==> rank(#[trigger] rest[k].value) < rank(rest[j].value));
        if rank(rest[j].value) < rank(last.value) {
            let n = items.len() - 1;
            assert(most_fold(Seq::empty(), items) == seq![items[n]]);
            assert forall|k: int| 0 <= k < items.len() implies rank(#[trigger] items[k].value) <= rank(
                items[n].value,
            ) by {
                if k < n {
                    assert(items[k] == rest[k]);
                }
            }
            assert forall|k: int| 0 <= k < n implies rank(#[trigger] items[k].value) < rank(
                items[n].value,
            ) by {
                assert(items[k] == rest[k]);
            }
        } else {
            assert(items[j] == rest[j]);
            assert(most_fold(Seq::empty(), items) == seq![items[j]]);
            assert forall|k: int| 0 <= k < items.len() implies rank(#[trigger] items[k].value) <= rank(
                items[j].value,
            ) by {
                if k < items.len() - 1 {
                    assert(items[k] == rest[k]);
                }
            }
            assert forall|k: int| 0 <= k < j implies rank(#[trigger] items[k].value) < rank(
                items[j].value,
            ) by {
                assert(items[k] == rest[k]);
            }
        }
    }
}

/// Under the `Most` policy an error outranks every warning: once an error has been
/// pushed, the diagnosis kept is an error.
pub proof fn law_most_keeps_an_error<W, E, C>(
    items: Seq<Contextual<Diagnosis<W, E>, C>>,
    error_at: int,
)
    requires
        0 <= error_at < items.len(),
        items[error_at].value is Error,
    ensures
        most_fold(Seq::empty(), items).len() == 1,
        most_fold(Seq::empty(), items)[0].value is Error,
{
    law_most_keeps_first_highest(items);
    let j = choose|j: int|
        0 <= j < items.len() && most_fold(Seq::empty(), items) == seq![items[j]] && (forall|k: int|
            0 <= k < items.len() ==> rank(#[trigger] items[k].value) <= rank(items[j].value)) && (
        forall|k: int| 0 <= k < j ==> rank(#[trigger] items[k].value) < rank(items[j].value));
    assert(rank(items[error_at].value) <= rank(items[j].value));
}

/// The `All` policy keeps every item pushed, in order, and ignores none.
pub proof fn law_all_keeps_everything<T: Prioritized, C>(
    start: Accumulated<T, C>,
    items: Seq<Contextual<T, C>>,
)
    requires
        start.kind == AccumulatorKind::All,
    ensures
        extended(start, items).items == start.items + items,
        extended(start, items).ignored == start.ignored,
{
    law_extend_is_append(start, items);
}

/// Wrapping warnings as diagnoses gives only warnings, and unwrapping them gives the
/// warnings back.
pub proof fn law_unwrap_undoes_wrap<W, E, C>(warnings: Seq<Contextual<W, C>>)
    ensures
        all_warnings(warning_diagnoses::<W, E, C>(warnings)),
        unwrapped_warnings(warning_diagnoses::<W, E, C>(warnings)) == warnings,
{
    assert(unwrapped_warnings(warning_diagnoses::<W, E, C>(warnings)) =~= warnings);
}

/// Chaining after a success keeps its warnings: under the `All` policy, the result's
/// diagnostics start with the earlier warnings, followed by those of the next step.
pub proof fn law_chain_keeps_earlier_warnings<U, W, E, C>(
    earlier: Accumulated<W, C>,
    next: Trisult<U, W, E, C>,
    result: Trisult<U, W, E, C>,
)
    requires
        earlier.kind == AccumulatorKind::All,
        chained(earlier, next, result),
    ensures
        next is OkWith ==> result is OkWith && result->OkWith_0.1@.items == earlier.items
            + next->OkWith_0.1@.items,
        next is ErrWith ==> result is ErrWith && result->ErrWith_0@.items == warning_diagnoses::<
            W,
            E,
            C,
        >(earlier.items) + next->ErrWith_0@.items,
{
    if earlier.items.len() == 0 {
        assert(earlier.items + next->OkWith_0.1@.items =~= next->OkWith_0.1@.items);
        assert(warning_diagnoses::<W, E, C>(earlier.items) + next->ErrWith_0@.items
            =~= next->ErrWith_0@.items);
    }
}

/// Folding items into a `Most` state that already holds something is the same as folding
/// that held item, then the items, into an empty state.
proof fn lemma_most_fold_from_empty<T: Prioritized, C>(
    kept: Seq<Contextual<T, C>>,
    items: Seq<Contextual<T, C>>,
)
    requires
        kept.len() <= 1,
    ensures
        most_fold(kept, items) == most_fold(Seq::empty(), kept + items),
    decreases items.len(),
{
    if items.len() == 0 {
        assert(kept + items =~= kept);
        if kept.len() == 1 {
            let empty = Seq::<Contextual<T, C>>::empty();
            assert(kept.drop_last() =~= empty);
            assert(most_fold(empty, kept.drop_last()) == empty);
            assert(seq![kept.last()] =~= kept);
        } else {
            assert(kept =~= Seq::<Contextual<T, C>>::empty());
        }
    } else {
        lemma_most_fold_from_empty(kept, items.drop_last());
        assert((kept + items).drop_last() =~= kept + items.drop_last());
        assert((kept + items).last() == items.last());
    }
}

/// Under the `Most` policy, chaining a success into a failure that holds an error fails
/// with an error: the failure's diagnoses are merged into the earlier warnings by
/// priority, so the error outranks and replaces any earlier warning.
pub proof fn law_chain_under_most_keeps_an_error<U, W, E, C>(
    earlier: Accumulated<W, C>,
    next: Trisult<U, W, E, C>,
    result: Trisult<U, W, E, C>,
    error_at: int,
)
    requires
        earlier.kind == AccumulatorKind::Most,
        well_formed(earlier),
        chained(earlier, next, result),
        next is ErrWith,
        next->ErrWith_0@.kind == AccumulatorKind::Most,
        well_formed(next->ErrWith_0@),
        0 <= error_at < next->ErrWith_0@.items.len(),
        next->ErrWith_0@.items[error_at].value is Error,
    ensures
        result is ErrWith,
        result->ErrWith_0@.items.len() == 1,
        result->ErrWith_0@.items[0].value is Error,
        result->ErrWith_0@.kind == AccumulatorKind::Most,
        earlier.items.len() > 0 && earlier.ignored + next->ErrWith_0@.total() <= usize::MAX
            ==> result->ErrWith_0@.total() == earlier.total() + next->ErrWith_0@.total(),
{
    let errors = next->ErrWith_0@.items;
    if earlier.items.len() == 0 {
        assert(result == next);
    } else {
        if earlier.ignored + next->ErrWith_0@.total() <= usize::MAX {
            law_append_accounts_for_all(as_diagnoses::<W, E, C>(earlier), next->ErrWith_0@);
        }
        let wrapped = warning_diagnoses::<W, E, C>(earlier.items);
        lemma_most_fold_from_empty(wrapped, errors);
        law_most_keeps_an_error(wrapped + errors, wrapped.len() + error_at);
        assert((wrapped + errors)[wrapped.len() + error_at] == errors[error_at]);
    }
}

/// The level of an integer priority follows the integer's own order: a priority is above
/// another exactly when its level is, and two priorities tie exactly when their levels do.
/// So a `Most` accumulator replaces its item exactly when the new priority is strictly
/// greater.
pub proof fn law_levels_follow_order()
    ensures
        forall|p: i8, q: i8|
            #![trigger p.spec_level(), q.spec_level()]
            (p < q) == (p.spec_level() < q.spec_level()) && (p == q) == (p.spec_level()
                == q.spec_level()),
        forall|p: i16, q: i16|
            #![trigger p.spec_level(), q.spec_level()]
            (p < q) == (p.spec_level() < q.spec_level()) && (p == q) == (p.spec_level()
                == q.spec_level()),
        forall|p: i32, q: i32|
            #![trigger p.spec_level(), q.spec_level()]
            (p < q) == (p.spec_level() < q.spec_level()) && (p == q) == (p.spec_level()
                == q.spec_level()),
        forall|p: i64, q: i64|
            #![trigger p.spec_level(), q.spec_level()]
            (p < q) == (p.spec_level() < q.spec_level()) && (p == q) == (p.spec_level()
                == q.spec_level()),
        forall|p: i128, q: i128|
            #![trigger p.spec_level(), q.spec_level()]
            (p < q) == (p.spec_level() < q.spec_level()) && (p == q) == (p.spec_level()
                == q.spec_level()),
        forall|p: isize, q: isize|
            #![trigger p.spec_level(), q.spec_level()]
            (p < q) == (p.spec_level() < q.spec_level()) && (p == q) == (p.spec_level()
                == q.spec_level()),
        forall|p: u8, q: u8|
            #![trigger p.spec_level(), q.spec_level()]
            (p < q) == (p.spec_level() < q.spec_level()) && (p == q) == (p.spec_level()
                == q.spec_level()),
        forall|p: u16, q: u16|
            #![trigger p.spec_level(), q.spec_level()]
            (p < q) == (p.spec_level() < q.spec_level()) && (p == q) == (p.spec_level()
                == q.spec_level()),
        forall|p: u32, q: u32|
            #![trigger p.spec_level(), q.spec_level()]
            (p < q) == (p.spec_level() < q.spec_level()) && (p == q) == (p.spec_level()
                == q.spec_level()),
        forall|p: u64, q: u64|
            #![trigger p.spec_level(), q.spec_level()]
            (p < q) == (p.spec_level() < q.spec_level()) && (p == q) == (p.spec_level()
                == q.spec_level()),
        forall|p: usize, q: usize|
            #![trigger p.spec_level(), q.spec_level()]
            (p < q) == (p.spec_level() < q.spec_level()) && (p == q) == (p.spec_level()
                == q.spec_level()),
{
}

/// An error outranks every warning.
pub proof fn law_error_outranks_warning<W, E>(warning: W, error: E)
    ensures
        Severity::Warning.spec_level() < Severity::Error.spec_level(),
        rank(Diagnosis::<W, E>::Warning(warning)) < rank(Diagnosis::<W, E>::Error(error)),
{
}

/// A priority-respecting push reports whether it stored the value: it reports `true`
/// exactly when the items changed, and then the value is the last item. The `All` policy
/// always stores it.
pub proof fn law_push_reports_storage<T: Prioritized, C>(
    kind: AccumulatorKind,
    kept: Seq<Contextual<T, C>>,
    value: Contextual<T, C>,
)
    requires
        kind == AccumulatorKind::Most ==> kept.len() <= 1,
    ensures
        takes(kind, kept, value) == (pushed(kind, kept, value) != kept),
        takes(kind, kept, value) ==> pushed(kind, kept, value).len() > 0 && pushed(
            kind,
            kept,
            value,
        ).last() == value,
        !takes(kind, kept, value) ==> pushed(kind, kept, value) == kept,
        kind == AccumulatorKind::All ==> takes(kind, kept, value),
{
    let after = pushed(kind, kept, value);
    if kind == AccumulatorKind::All {
        assert(after.len() != kept.len());
    } else if kept.len() > 0 && rank(kept[0].value) < rank(value.value) {
        assert(after[0] == value);
        assert(after[0] != kept[0]);
    } else if kept.len() == 0 {
        assert(after.len() != kept.len());
    }
}

/// Appending with priorities is pushing the items one at a time: appending nothing changes
/// nothing and counts nothing, and appending one more item is pushing it into the state
/// the earlier ones left, with one more item counted as not stored when that push does not
/// take it.
pub proof fn law_append_is_successive_pushes<T: Prioritized, C>(
    kind: AccumulatorKind,
    kept: Seq<Contextual<T, C>>,
    items: Seq<Contextual<T, C>>,
    value: Contextual<T, C>,
)
    requires
        kind == AccumulatorKind::Most ==> kept.len() <= 1,
    ensures
        appended(kind, kept, Seq::empty()) == kept,
        passed_over(kind, kept, Seq::<Contextual<T, C>>::empty()) == 0,
        appended(kind, kept, items.push(value)) == pushed(kind, appended(kind, kept, items), value),
        passed_over(kind, kept, items.push(value)) == passed_over(kind, kept, items) + if takes(
            kind,
            appended(kind, kept, items),
            value,
        ) {
            0nat
        } else {
            1nat
        },
{
    assert(items.push(value).drop_last() =~= items);
    assert(items.push(value).last() == value);
    if kind == AccumulatorKind::All {
        assert(kept + Seq::<Contextual<T, C>>::empty() =~= kept);
        assert(kept + items.push(value) =~= (kept + items).push(value));
    }
}

/// Wrapping warnings as diagnoses, as unpacking a success does, keeps the policy, the
/// contexts, the order and the count of ignored items: each warning becomes a
/// `Diagnosis::Warning`, and unwrapping them gives the same accumulator back.
pub proof fn law_wrapping_keeps_counts<W, E, C>(warnings: Accumulated<W, C>)
    ensures
        as_diagnoses::<W, E, C>(warnings).kind == warnings.kind,
        as_diagnoses::<W, E, C>(warnings).ignored == warnings.ignored,
        as_diagnoses::<W, E, C>(warnings).total() == warnings.total(),
        as_diagnoses::<W, E, C>(warnings).items.len() == warnings.items.len(),
        forall|i: int|
            0 <= i < warnings.items.len() ==> (#[trigger] as_diagnoses::<W, E, C>(
                warnings,
            ).items[i]).context == warnings.items[i].context && as_diagnoses::<W, E, C>(
                warnings,
            ).items[i].value == Diagnosis::<W, E>::Warning(warnings.items[i].value),
        unwrapped_warnings(as_diagnoses::<W, E, C>(warnings).items) == warnings.items,
{
    law_unwrap_undoes_wrap::<W, E, C>(warnings.items);
}

/// Under the `Most` policy, chaining a success that has a warning into another success
/// keeps the earlier warning, and counts every warning of the next step as ignored.
pub proof fn law_chain_under_most_keeps_first_warning<U, W, E, C>(
    earlier: Accumulated<W, C>,
    next: Trisult<U, W, E, C>,
    result: Trisult<U, W, E, C>,
)
    requires
        earlier.kind == AccumulatorKind::Most,
        well_formed(earlier),
        earlier.items.len() > 0,
        chained(earlier, next, result),
        next is OkWith,
    ensures
        result is OkWith,
        result->OkWith_0.0 == next->OkWith_0.0,
        result->OkWith_0.1@.kind == AccumulatorKind::Most,
        result->OkWith_0.1@.items == earlier.items,
        result->OkWith_0.1@.ignored == capped_add(
            earlier.ignored,
            next->OkWith_0.1@.total(),
        ),
{
}

/// Pushing or appending without priorities never displaces what is held: the items held
/// before stay first, in order, and a `Most` state that holds an item keeps just that item.
pub proof fn law_naive_keeps_what_is_held<T, C>(
    kind: AccumulatorKind,
    kept: Seq<Contextual<T, C>>,
    value: Contextual<T, C>,
    other: Seq<Contextual<T, C>>,
)
    requires
        kind == AccumulatorKind::Most ==> kept.len() <= 1,
    ensures
        pushed_naive(kind, kept, value).len() >= kept.len(),
        pushed_naive(kind, kept, value).take(kept.len() as int) == kept,
        appended_naive(kind, kept, other).len() >= kept.len(),
        appended_naive(kind, kept, other).take(kept.len() as int) == kept,
        kind == AccumulatorKind::Most && kept.len() > 0 ==> pushed_naive(kind, kept, value) == kept
            && appended_naive(kind, kept, other) == kept,
{
    assert(pushed_naive(kind, kept, value).take(kept.len() as int) =~= kept);
    assert(appended_naive(kind, kept, other).take(kept.len() as int) =~= kept);
}

} // verus!

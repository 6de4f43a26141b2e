//! The run-time side of a function that gathers diagnoses as it goes.
use vstd::prelude::*;

use crate::acc::{Acc, AccumulatorKind, AccumulatorState, pushed};
use crate::contextual::{Accumulated, Contextual, Contextuals, extended};
use crate::diagnosis::{Diagnosed, Diagnoses, Diagnosis, all_warnings, unwrapped_warnings, warning_diagnoses};
use crate::trisult::Trisult;

verus! {

/// Pushing a warning into diagnoses that are all warnings keeps them all warnings.
proof fn lemma_pushed_warning<W, E, C>(
    kind: AccumulatorKind,
    kept: Seq<Contextual<Diagnosis<W, E>, C>>,
    value: Contextual<Diagnosis<W, E>, C>,
)
    requires
        all_warnings(kept),
        value.value is Warning,
    ensures
        all_warnings(pushed(kind, kept, value)),
{
    let after = pushed(kind, kept, value);
    assert forall|i: int| 0 <= i < after.len() implies (#[trigger] after[i]).value is Warning by {
        if kind == AccumulatorKind::All && i < kept.len() {
            assert(after[i] == kept[i]);
        }
    }
}

/// Pushing warnings one by one into diagnoses that are all warnings keeps them all warnings.
proof fn lemma_extended_warnings<W, E, C>(
    start: Accumulated<Diagnosis<W, E>, C>,
    items: Seq<Contextual<Diagnosis<W, E>, C>>,
)
    requires
        all_warnings(start.items),
        all_warnings(items),
    ensures
        all_warnings(extended(start, items).items),
    decreases items.len(),
{
    if items.len() > 0 {
        let rest = items.drop_last();
        assert(all_warnings(rest)) by {
            assert forall|i: int| 0 <= i < rest.len() implies (#[trigger] rest[i]).value is Warning by {
                assert(rest[i] == items[i]);
            }
        }
        lemma_extended_warnings(start, rest);
        assert(items.last() == items[items.len() - 1]);
        lemma_pushed_warning(start.kind, extended(start, rest).items, items.last());
    }
}

/// One step of a function that gathers diagnoses, as it reaches its session.
pub enum SessionStep<W, E, C> {
    /// A warning emitted in a context.
    Warned(W, C),
    /// An error emitted in a context.
    Erred(E, C),
    /// A call that succeeded with these warnings, unpacked.
    UnpackedOk(Accumulated<W, C>),
    /// A call that failed with these diagnoses, unpacked.
    UnpackedErr(Accumulated<Diagnosis<W, E>, C>),
}

/// The step that unpacking `result` is.
pub open spec fn unpacked<T, W, E, C>(result: Trisult<T, W, E, C>) -> SessionStep<W, E, C> {
    match result {
        Trisult::OkWith(Diagnosed(_, warnings)) => SessionStep::UnpackedOk(warnings@),
        Trisult::ErrWith(diagnoses) => SessionStep::UnpackedErr(diagnoses@),
    }
}

/// Whether a step makes the function fail.
pub open spec fn fails<W, E, C>(step: SessionStep<W, E, C>) -> bool {
    step is Erred || step is UnpackedErr
}

/// The diagnoses and the failed flag after one step.
pub open spec fn after_step<W, E, C>(
    diagnoses: Accumulated<Diagnosis<W, E>, C>,
    failed: bool,
    step: SessionStep<W, E, C>,
) -> (Accumulated<Diagnosis<W, E>, C>, bool) {
    match step {
        SessionStep::Warned(w, c) => (
            diagnoses.push(Contextual { context: c, value: Diagnosis::Warning(w) }),
            failed,
        ),
        SessionStep::Erred(e, c) => (
            diagnoses.push(Contextual { context: c, value: Diagnosis::Error(e) }),
            true,
        ),
        SessionStep::UnpackedOk(warnings) => (
            extended(diagnoses, warning_diagnoses::<W, E, C>(warnings.items)),
            failed,
        ),
        SessionStep::UnpackedErr(errors) => (
            if diagnoses.items.len() == 0 {
                errors
            } else {
                diagnoses.append(errors)
            },
            true,
        ),
    }
}

/// The diagnoses and the failed flag after the steps, in order.
pub open spec fn after_steps<W, E, C>(
    diagnoses: Accumulated<Diagnosis<W, E>, C>,
    failed: bool,
    steps: Seq<SessionStep<W, E, C>>,
) -> (Accumulated<Diagnosis<W, E>, C>, bool)
    decreases steps.len(),
{
    if steps.len() == 0 {
        (diagnoses, failed)
    } else {
        let before = after_steps(diagnoses, failed, steps.drop_last());
        after_step(before.0, before.1, steps.last())
    }
}

/// The diagnoses the steps bring, in order.
pub open spec fn emitted<W, E, C>(steps: Seq<SessionStep<W, E, C>>) -> Seq<
    Contextual<Diagnosis<W, E>, C>,
>
    decreases steps.len(),
{
    if steps.len() == 0 {
        Seq::empty()
    } else {
        emitted(steps.drop_last()) + match steps.last() {
            SessionStep::Warned(w, c) => seq![Contextual { context: c, value: Diagnosis::Warning(w) }],
            SessionStep::Erred(e, c) => seq![Contextual { context: c, value: Diagnosis::Error(e) }],
            SessionStep::UnpackedOk(warnings) => warning_diagnoses::<W, E, C>(warnings.items),
            SessionStep::UnpackedErr(errors) => errors.items,
        }
    }
}

/// A function fails exactly when one of its steps emitted or unpacked an error: starting
/// from a session that has not failed, the session has failed after the steps if and only
/// if one of them is an error.
pub proof fn law_session_fails_iff_error<W, E, C>(
    diagnoses: Accumulated<Diagnosis<W, E>, C>,
    steps: Seq<SessionStep<W, E, C>>,
)
    ensures
        after_steps(diagnoses, false, steps).1 <==> exists|i: int|
            0 <= i < steps.len() && fails(#[trigger] steps[i]),
    decreases steps.len(),
{
    if steps.len() > 0 {
        let rest = steps.drop_last();
        law_session_fails_iff_error(diagnoses, rest);
        if after_steps(diagnoses, false, steps).1 {
            if !fails(steps.last()) {
                let i = choose|i: int| 0 <= i < rest.len() && fails(#[trigger] rest[i]);
                assert(steps[i] == rest[i]);
            }
        } else {
            assert forall|i: int| 0 <= i < steps.len() implies !fails(#[trigger] steps[i]) by {
                if i < rest.len() {
                    assert(steps[i] == rest[i]);
                }
            }
        }
    }
}

/// Until a step fails, a session holds only warnings: so a function none of whose steps
/// failed succeeds when it has a value.
pub proof fn law_session_keeps_warnings_until_failure<W, E, C>(
    diagnoses: Accumulated<Diagnosis<W, E>, C>,
    steps: Seq<SessionStep<W, E, C>>,
)
    requires
        all_warnings(diagnoses.items),
        forall|i: int| 0 <= i < steps.len() ==> !fails(#[trigger] steps[i]),
    ensures
        !after_steps(diagnoses, false, steps).1,
        all_warnings(after_steps(diagnoses, false, steps).0.items),
    decreases steps.len(),
{
    if steps.len() > 0 {
        let rest = steps.drop_last();
        assert forall|i: int| 0 <= i < rest.len() implies !fails(#[trigger] rest[i]) by {
            assert(rest[i] == steps[i]);
        }
        law_session_keeps_warnings_until_failure(diagnoses, rest);
        let before = after_steps(diagnoses, false, rest);
        assert(!fails(steps[steps.len() - 1]));
        match steps.last() {
            SessionStep::Warned(w, c) => {
                lemma_pushed_warning(
                    before.0.kind,
                    before.0.items,
                    Contextual { context: c, value: Diagnosis::<W, E>::Warning(w) },
                );
            },
            SessionStep::UnpackedOk(warnings) => {
                crate::laws::law_unwrap_undoes_wrap::<W, E, C>(warnings.items);
                lemma_extended_warnings(before.0, warning_diagnoses::<W, E, C>(warnings.items));
            },
            _ => {},
        }
    }
}

/// Under the `All` policy a session collects every diagnosis its steps bring, in order,
/// when the failures it unpacks were gathered under `All` too.
pub proof fn law_session_all_collects_everything<W, E, C>(
    diagnoses: Accumulated<Diagnosis<W, E>, C>,
    failed: bool,
    steps: Seq<SessionStep<W, E, C>>,
)
    requires
        diagnoses.kind == AccumulatorKind::All,
        forall|i: int|
            0 <= i < steps.len() && #[trigger] steps[i] is UnpackedErr ==> steps[i]->UnpackedErr_0.kind
                == AccumulatorKind::All,
    ensures
        after_steps(diagnoses, failed, steps).0.kind == AccumulatorKind::All,
        after_steps(diagnoses, failed, steps).0.items == diagnoses.items + emitted(steps),
    decreases steps.len(),
{
    if steps.len() == 0 {
        assert(diagnoses.items + emitted(steps) =~= diagnoses.items);
    } else {
        let rest = steps.drop_last();
        assert forall|i: int|
            0 <= i < rest.len() && #[trigger] rest[i] is UnpackedErr implies rest[i]->UnpackedErr_0.kind
                == AccumulatorKind::All by {
            assert(rest[i] == steps[i]);
        }
        law_session_all_collects_everything(diagnoses, failed, rest);
        let before = after_steps(diagnoses, failed, rest);
        let last = steps.last();
        assert(last == steps[steps.len() - 1]);
        match last {
            SessionStep::UnpackedOk(warnings) => {
                crate::laws::law_extend_is_append(
                    before.0,
                    warning_diagnoses::<W, E, C>(warnings.items),
                );
            },
            _ => {},
        }
        assert(after_steps(diagnoses, failed, steps).0.items =~= diagnoses.items + emitted(steps));
    }
}

/// The diagnoses that a function gathers as it runs, and whether an error was among them.
///
/// A function that accumulates creates a session, emits warnings and errors into it,
/// unpacks the `Trisult`s of the calls it makes with [`Session::tri`], and ends with
/// [`Session::finish`]: it fails exactly when an error was emitted or unpacked, or when it
/// has no value.
pub struct Session<W, E, C> {
    diagnoses: Diagnoses<W, E, C>,
    has_errors: bool,
}

impl<W, E, C> Session<W, E, C> {
    /// The diagnoses gathered so far.
    pub closed spec fn diagnoses(&self) -> Accumulated<Diagnosis<W, E>, C> {
        self.diagnoses@
    }

    /// Whether an error was emitted or unpacked so far.
    pub closed spec fn failed(&self) -> bool {
        self.has_errors
    }

    /// A session that has met no error holds only warnings.
    #[verifier::type_invariant]
    spec fn warnings_until_failed(self) -> bool {
        !self.has_errors ==> all_warnings(self.diagnoses@.items)
    }

    /// Moves the diagnoses out, leaving an empty accumulator in their place.
    fn take_diagnoses(&mut self) -> (diagnoses: Diagnoses<W, E, C>)
        ensures
            diagnoses@ == old(self).diagnoses(),
            final(self).diagnoses().items.len() == 0,
            final(self).failed() == old(self).failed(),
    {
        let mut diagnoses = Contextuals::new(AccumulatorState::new(AccumulatorKind::All));
        proof {
            assert(all_warnings(diagnoses@.items));
        }
        core::mem::swap(&mut diagnoses, &mut self.diagnoses);
        diagnoses
    }

    /// Starts a session whose diagnoses accumulate under the policy `A`.
    pub fn new<A: Acc>() -> (session: Self)
        ensures
            !session.failed(),
            session.diagnoses().kind == A::spec_policy(),
            session.diagnoses().items.len() == 0,
            session.diagnoses().ignored == 0,
    {
        Session { diagnoses: Contextuals::new(A::create_state()), has_errors: false }
    }

    /// Emits a warning in `context`.
    pub fn warn(&mut self, warning: W, context: C)
        ensures
            (final(self).diagnoses(), final(self).failed()) == after_step(
                old(self).diagnoses(),
                old(self).failed(),
                SessionStep::Warned(warning, context),
            ),
    {
        proof {
            use_type_invariant(&*self);
        }
        let item = Contextual::new(context, Diagnosis::Warning(warning));
        proof {
            if !self.has_errors {
                lemma_pushed_warning(self.diagnoses@.kind, self.diagnoses@.items, item);
            }
        }
        let mut diagnoses = self.take_diagnoses();
        diagnoses.push(item);
        self.diagnoses = diagnoses;
    }

    /// Emits an error in `context`.
    pub fn error(&mut self, error: E, context: C)
        ensures
            (final(self).diagnoses(), final(self).failed()) == after_step(
                old(self).diagnoses(),
                old(self).failed(),
                SessionStep::Erred(error, context),
            ),
    {
        self.has_errors = true;
        let mut diagnoses = self.take_diagnoses();
        diagnoses.push(Contextual::new(context, Diagnosis::Error(error)));
        self.diagnoses = diagnoses;
    }

    /// Unpacks the result of a call: the value of an `OkWith`, whose warnings join the
    /// session; for an `ErrWith`, `None`, and its diagnoses join the session (which takes
    /// them over if it holds none yet) and it counts as failed.
    pub fn tri<T>(&mut self, result: Trisult<T, W, E, C>) -> (value: Option<T>)
        ensures
            (final(self).diagnoses(), final(self).failed()) == after_step(
                old(self).diagnoses(),
                old(self).failed(),
                unpacked(result),
            ),
            final(self).failed() == (old(self).failed() || result is ErrWith),
            result is OkWith ==> value == Some(result->OkWith_0.0) && final(self).diagnoses()
                == extended(
                old(self).diagnoses(),
                warning_diagnoses::<W, E, C>(result->OkWith_0.1@.items),
            ),
            result is ErrWith ==> value is None && (if old(self).diagnoses().items.len() == 0 {
                final(self).diagnoses() == result->ErrWith_0@
            } else {
                final(self).diagnoses() == old(self).diagnoses().append(result->ErrWith_0@)
            }),
    {
        proof {
            use_type_invariant(&*self);
        }
        let ghost before = self.diagnoses@;
        let ghost was_failed = self.has_errors;
        proof {
            if result is OkWith && !was_failed {
                crate::laws::law_unwrap_undoes_wrap::<W, E, C>(result->OkWith_0.1@.items);
                lemma_extended_warnings(before, warning_diagnoses::<W, E, C>(result->OkWith_0.1@.items));
            }
        }
        let mut diagnoses = self.take_diagnoses();
        let mut failed = self.has_errors;
        let value = result.__macro_tri_unpack(&mut diagnoses, &mut failed);
        self.has_errors = failed;
        self.diagnoses = diagnoses;
        value
    }

    /// Ends the session: fails with the diagnoses if an error was met or there is no value,
    /// and otherwise succeeds with the value and the diagnoses, which are then all
    /// warnings.
    pub fn finish<T>(self, value: Option<T>) -> (result: Trisult<T, W, E, C>)
        ensures
            result is ErrWith <==> (self.failed() || value is None),
            result is ErrWith ==> result->ErrWith_0@ == self.diagnoses(),
            result is OkWith ==> Some(result->OkWith_0.0) == value
                && result->OkWith_0.1@.kind == self.diagnoses().kind
                && result->OkWith_0.1@.items == unwrapped_warnings(self.diagnoses().items)
                && result->OkWith_0.1@.ignored == if self.diagnoses().items.len() == 0 {
                0
            } else {
                self.diagnoses().ignored
            },
    {
        proof {
            use_type_invariant(&self);
        }
        Trisult::__macro_conclude(value, self.diagnoses, self.has_errors)
    }
}

} // verus!

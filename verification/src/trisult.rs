use vstd::prelude::*;

use crate::context::NoLoc;
use crate::contextual::{Accumulated, Contextuals, extended};
use crate::diagnosis::{
    Diagnosed, Diagnoses, Diagnosis, all_warnings, as_diagnoses, mapped_by, unwrapped_warnings,
    warning_diagnoses,
};
use crate::contextual::Contextual;
use crate::laws::law_unwrap_undoes_wrap;
use crate::traits::MapDiagnosis;

verus! {

/// The result type of the library: it accumulates issues instead of stopping at the first.
///
/// - `OkWith(Diagnosed)`: a value, with the (non-fatal) warnings met while producing it.
/// - `ErrWith(Diagnoses)`: every failure accumulated, errors and warnings.
#[derive(Debug, Clone)]
pub enum Trisult<T, W, E, C = NoLoc> {
    /// A success, with its warnings.
    OkWith(Diagnosed<T, W, C>),
    /// A failure, with all accumulated diagnoses.
    ErrWith(Diagnoses<W, E, C>),
}

/// Whether `result` is what chaining `next` after a success whose warnings are `warnings`
/// gives: with no earlier warning, `next` itself; after `next` succeeds, its value with the
/// earlier warnings followed (naively) by its own; after `next` fails, the earlier warnings
/// as diagnoses followed (respecting priorities) by its diagnoses.
pub open spec fn chained<U, W, E, C>(
    warnings: Accumulated<W, C>,
    next: Trisult<U, W, E, C>,
    result: Trisult<U, W, E, C>,
) -> bool {
    if warnings.items.len() == 0 {
        result == next
    } else {
        match next {
            Trisult::OkWith(Diagnosed(value, more)) => result matches Trisult::OkWith(Diagnosed(v, w)) && v
                == value && w@ == warnings.append_naive(more@),
            Trisult::ErrWith(errors) => result matches Trisult::ErrWith(d) && d@ == as_diagnoses::<
                W,
                E,
                C,
            >(warnings).append(errors@),
        }
    }
}

impl<T, W, E, C> Trisult<T, W, E, C> {
    /// Returns `true` if this is an `ErrWith`.
    pub fn is_err(&self) -> (err: bool)
        ensures
            err == self is ErrWith,
    {
        match self {
            Trisult::ErrWith(_) => true,
            Trisult::OkWith(_) => false,
        }
    }

    /// Returns `true` if this is an `OkWith`.
    pub fn is_ok(&self) -> (ok: bool)
        ensures
            ok == self is OkWith,
    {
        match self {
            Trisult::OkWith(_) => true,
            Trisult::ErrWith(_) => false,
        }
    }

    /// The diagnoses of an `ErrWith`, or `None` for an `OkWith`.
    pub fn err(self) -> (diagnoses: Option<Diagnoses<W, E, C>>)
        ensures
            self is ErrWith ==> diagnoses == Some(self->ErrWith_0),
            self is OkWith ==> diagnoses is None,
    {
        if let Trisult::ErrWith(diagnoses) = self {
            Some(diagnoses)
        } else {
            None
        }
    }

    /// The success of an `OkWith`, or `None` for an `ErrWith`.
    pub fn ok(self) -> (diagnosed: Option<Diagnosed<T, W, C>>)
        ensures
            self is OkWith ==> diagnosed == Some(self->OkWith_0),
            self is ErrWith ==> diagnosed is None,
    {
        if let Trisult::OkWith(diagnosed) = self {
            Some(diagnosed)
        } else {
            None
        }
    }

    /// Calls `then` on the value of an `OkWith`, accumulating the warnings met so far into its
    /// result (see [`chained`]); an `ErrWith` is returned as it is.
    pub fn and_then<U, F: FnOnce(T) -> Trisult<U, W, E, C>>(self, then: F) -> (result: Trisult<
        U,
        W,
        E,
        C,
    >)
        requires
            self is OkWith ==> call_requires(then, (self->OkWith_0.0,)),
        ensures
            self is ErrWith ==> result == Trisult::<U, W, E, C>::ErrWith(self->ErrWith_0),
            self is OkWith ==> exists|next: Trisult<U, W, E, C>|
                call_ensures(then, (self->OkWith_0.0,), next) && chained(self->OkWith_0.1@, next, result),
    {
        match self {
            Trisult::OkWith(Diagnosed(value, warnings)) => {
                let ghost earlier = warnings@;
                let next = then(value);
                let ghost followed = next;
                let result = if warnings.is_empty() {
                    next
                } else {
                    match next {
                        Trisult::OkWith(Diagnosed(value, more)) => {
                            let mut warnings = warnings;
                            warnings.append_naive(more);
                            Trisult::OkWith(Diagnosed(value, warnings))
                        },
                        Trisult::ErrWith(errors) => {
                            let mut diagnoses = warnings.into_diagnoses();
                            diagnoses.append(errors);
                            Trisult::ErrWith(diagnoses)
                        },
                    }
                };
                assert(chained(earlier, followed, result));
                result
            },
            Trisult::ErrWith(diagnoses) => Trisult::ErrWith(diagnoses),
        }
    }

    /// Maps the value of an `OkWith` with `map`, keeping its warnings; an `ErrWith` is returned as
    /// it is.
    pub fn map<U, F: FnOnce(T) -> U>(self, map: F) -> (result: Trisult<U, W, E, C>)
        requires
            self is OkWith ==> call_requires(map, (self->OkWith_0.0,)),
        ensures
            self is ErrWith ==> result == Trisult::<U, W, E, C>::ErrWith(self->ErrWith_0),
            self is OkWith ==> result is OkWith && call_ensures(map, (self->OkWith_0.0,), result->OkWith_0.0)
                && result->OkWith_0.1 == self->OkWith_0.1,
    {
        match self {
            Trisult::OkWith(Diagnosed(value, warnings)) => Trisult::OkWith(Diagnosed(map(value), warnings)),
            Trisult::ErrWith(diagnoses) => Trisult::ErrWith(diagnoses),
        }
    }

    /// Splits into the optional value and the diagnoses; the warnings of an `OkWith` become
    /// `Diagnosis::Warning`s.
    pub fn unpack(self) -> (parts: (Option<T>, Diagnoses<W, E, C>))
        ensures
            self is OkWith ==> parts.0 == Some(self->OkWith_0.0) && parts.1@ == as_diagnoses::<W, E, C>(
                self->OkWith_0.1@,
            ),
            self is OkWith ==> parts.1@.kind == self->OkWith_0.1@.kind && parts.1@.ignored
                == self->OkWith_0.1@.ignored && parts.1@.items.len() == self->OkWith_0.1@.items.len(),
            self is OkWith ==> all_warnings(parts.1@.items) && unwrapped_warnings(parts.1@.items)
                == self->OkWith_0.1@.items,
            self is ErrWith ==> parts.0 is None && parts.1 == self->ErrWith_0,
    {
        match self {
            Trisult::OkWith(Diagnosed(value, warnings)) => {
                proof {
                    law_unwrap_undoes_wrap::<W, E, C>(warnings@.items);
                }
                (Some(value), warnings.into_diagnoses())
            },
            Trisult::ErrWith(diagnoses) => (None, diagnoses),
        }
    }

    /// The success of an `OkWith`; must not be called on an `ErrWith`.
    pub fn expect(self, msg: &str) -> (diagnosed: Diagnosed<T, W, C>)
        requires
            self is OkWith,
        ensures
            diagnosed == self->OkWith_0,
    {
        match self {
            Trisult::OkWith(diagnosed) => diagnosed,
            Trisult::ErrWith(_) => vstd::pervasive::unreached(),
        }
    }

    /// The success of an `OkWith`; must not be called on an `ErrWith`.
    pub fn unwrap(self) -> (diagnosed: Diagnosed<T, W, C>)
        requires
            self is OkWith,
        ensures
            diagnosed == self->OkWith_0,
    {
        self.expect("called `Trisult::unwrap()` on an `Err` value")
    }

    /// The `Result` with the same success or failure.
    pub fn into_result(self) -> (result: Result<Diagnosed<T, W, C>, Diagnoses<W, E, C>>)
        ensures
            self is OkWith ==> result == Ok::<Diagnosed<T, W, C>, Diagnoses<W, E, C>>(self->OkWith_0),
            self is ErrWith ==> result == Err::<Diagnosed<T, W, C>, Diagnoses<W, E, C>>(self->ErrWith_0),
    {
        match self {
            Trisult::OkWith(ok) => Ok(ok),
            Trisult::ErrWith(err) => Err(err),
        }
    }

    /// Step of a function that accumulates diagnoses as it goes: takes the value of an
    /// `Ok`, adding its warnings to `diagnoses`; for an `ErrWith`, records that an error
    /// happened and adds its diagnoses (taking them over if `diagnoses` is empty).
    pub fn __macro_tri_unpack(self, diagnoses: &mut Diagnoses<W, E, C>, has_errors: &mut bool) -> (value: Option<T>)
        ensures
            self is OkWith ==> value == Some(self->OkWith_0.0) && *final(has_errors) == *old(has_errors)
                && final(diagnoses)@ == extended(
                old(diagnoses)@,
                warning_diagnoses::<W, E, C>(self->OkWith_0.1@.items),
            ),
            self is ErrWith ==> value is None && *final(has_errors) && (if old(diagnoses)@.items.len()
                == 0 {
                final(diagnoses)@ == self->ErrWith_0@
            } else {
                final(diagnoses)@ == old(diagnoses)@.append(self->ErrWith_0@)
            }),
    {
        match self {
            Trisult::OkWith(Diagnosed(value, warnings)) => {
                diagnoses.append_warnings(warnings);
                Some(value)
            },
            Trisult::ErrWith(errors) => {
                *has_errors = true;
                if diagnoses.is_empty() {
                    *diagnoses = errors;
                } else {
                    diagnoses.append(errors);
                }
                None
            },
        }
    }

    /// Final step of a function that accumulated `diagnoses` as it went: fails with the
    /// diagnoses if an error happened or there is no value, and otherwise succeeds with the
    /// value and the diagnoses, which are then all warnings.
    pub fn __macro_conclude(value: Option<T>, diagnoses: Diagnoses<W, E, C>, has_errors: bool) -> (result: Self)
        requires
            !has_errors && value is Some ==> all_warnings(diagnoses@.items),
        ensures
            has_errors || value is None ==> result == Trisult::<T, W, E, C>::ErrWith(diagnoses),
            !has_errors && value is Some ==> result is OkWith && result->OkWith_0.0 == value->0
                && result->OkWith_0.1@.kind == diagnoses@.kind && result->OkWith_0.1@.items
                == unwrapped_warnings(diagnoses@.items) && result->OkWith_0.1@.ignored == if diagnoses@.items.len() == 0 {
                0
            } else {
                diagnoses@.ignored
            },
    {
        if has_errors || value.is_none() {
            Trisult::ErrWith(diagnoses)
        } else {
            let warnings = diagnoses.unwrap_as_warnings();
            Trisult::OkWith(Diagnosed(value.unwrap(), warnings))
        }
    }
}

impl<T, W, E, C, UW, UE> MapDiagnosis<W, E, UW, UE> for Trisult<T, W, E, C> {
    type Target = Trisult<T, UW, UE, C>;

    fn map_diagnosis<FW: Fn(W) -> UW, FE: Fn(E) -> UE>(self, fw: FW, fe: FE) -> (mapped: Trisult<
        T,
        UW,
        UE,
        C,
    >)
        ensures
            self is OkWith ==> mapped is OkWith && mapped->OkWith_0.0 == self->OkWith_0.0 && mapped->OkWith_0.1@.kind
                == self->OkWith_0.1@.kind && mapped->OkWith_0.1@.ignored == self->OkWith_0.1@.ignored
                && mapped->OkWith_0.1@.items.len() == self->OkWith_0.1@.items.len() && (forall|i: int|
                0 <= i < self->OkWith_0.1@.items.len() ==> (#[trigger] mapped->OkWith_0.1@.items[i]).context
                    == self->OkWith_0.1@.items[i].context && call_ensures(
                    fw,
                    (self->OkWith_0.1@.items[i].value,),
                    mapped->OkWith_0.1@.items[i].value,
                )),
            self is ErrWith ==> mapped is ErrWith && mapped->ErrWith_0@.kind == self->ErrWith_0@.kind
                && mapped->ErrWith_0@.ignored == self->ErrWith_0@.ignored && mapped->ErrWith_0@.items.len()
                == self->ErrWith_0@.items.len() && (forall|i: int|
                0 <= i < self->ErrWith_0@.items.len() ==> (#[trigger] mapped->ErrWith_0@.items[i]).context
                    == self->ErrWith_0@.items[i].context && mapped_by(
                    self->ErrWith_0@.items[i].value,
                    fw,
                    fe,
                    mapped->ErrWith_0@.items[i].value,
                )),
    {
        match self {
            Trisult::OkWith(Diagnosed(value, warnings)) => Trisult::OkWith(Diagnosed(value, warnings.map(fw))),
            Trisult::ErrWith(diagnoses) => Trisult::ErrWith(diagnoses.map_diagnosis(fw, fe)),
        }
    }
}

/// Whether `mapped` is `diagnosis` with its error, if any, mapped by `map`.
pub open spec fn error_mapped<W, E, UE, F: Fn(E) -> UE>(
    diagnosis: Diagnosis<W, E>,
    map: F,
    mapped: Diagnosis<W, UE>,
) -> bool {
    match diagnosis {
        Diagnosis::Warning(w) => mapped == Diagnosis::<W, UE>::Warning(w),
        Diagnosis::Error(e) => mapped is Error && call_ensures(map, (e,), mapped->Error_0),
    }
}

/// Whether `mapped` is `diagnosis` with its warning, if any, mapped by `map`.
pub open spec fn warning_mapped<W, E, UW, F: Fn(W) -> UW>(
    diagnosis: Diagnosis<W, E>,
    map: F,
    mapped: Diagnosis<UW, E>,
) -> bool {
    match diagnosis {
        Diagnosis::Warning(w) => mapped is Warning && call_ensures(map, (w,), mapped->Warning_0),
        Diagnosis::Error(e) => mapped == Diagnosis::<UW, E>::Error(e),
    }
}

impl<W, E> Diagnosis<W, E> {
    /// Maps the error, if any, with `map`; a warning is kept.
    pub fn map_errors<UE, F: Fn(E) -> UE>(self, map: F) -> (mapped: Diagnosis<W, UE>)
        requires
            forall|e: E| call_requires(map, (e,)),
        ensures
            error_mapped(self, map, mapped),
    {
        match self {
            Diagnosis::Warning(w) => Diagnosis::Warning(w),
            Diagnosis::Error(e) => Diagnosis::Error(map(e)),
        }
    }

    /// Maps the warning, if any, with `map`; an error is kept.
    pub fn map_warnings<UW, F: Fn(W) -> UW>(self, map: F) -> (mapped: Diagnosis<UW, E>)
        requires
            forall|w: W| call_requires(map, (w,)),
        ensures
            warning_mapped(self, map, mapped),
    {
        match self {
            Diagnosis::Warning(w) => Diagnosis::Warning(map(w)),
            Diagnosis::Error(e) => Diagnosis::Error(e),
        }
    }
}

impl<W, E, C> Contextual<Diagnosis<W, E>, C> {
    /// Maps the error, if any, with `map`, keeping the context; a warning is kept.
    pub fn map_errors<UE, F: Fn(E) -> UE>(self, map: F) -> (mapped: Contextual<Diagnosis<W, UE>, C>)
        requires
            forall|e: E| call_requires(map, (e,)),
        ensures
            mapped.context == self.context,
            error_mapped(self.value, map, mapped.value),
    {
        Contextual::new(self.context, self.value.map_errors(map))
    }

    /// Maps the warning, if any, with `map`, keeping the context; an error is kept.
    pub fn map_warnings<UW, F: Fn(W) -> UW>(self, map: F) -> (mapped: Contextual<Diagnosis<UW, E>, C>)
        requires
            forall|w: W| call_requires(map, (w,)),
        ensures
            mapped.context == self.context,
            warning_mapped(self.value, map, mapped.value),
    {
        Contextual::new(self.context, self.value.map_warnings(map))
    }
}

impl<W, E, C> Contextuals<Diagnosis<W, E>, C> {
    /// Maps every error with `map`, keeping the warnings.
    pub fn map_errors<UE, F: Fn(E) -> UE>(self, map: F) -> (mapped: Contextuals<Diagnosis<W, UE>, C>)
        requires
            forall|e: E| call_requires(map, (e,)),
        ensures
            mapped@.kind == self@.kind,
            mapped@.ignored == self@.ignored,
            mapped@.items.len() == self@.items.len(),
            forall|i: int|
                0 <= i < self@.items.len() ==> (#[trigger] mapped@.items[i]).context
                    == self@.items[i].context && error_mapped(
                    self@.items[i].value,
                    map,
                    mapped@.items[i].value,
                ),
    {
        let keep = |w: W| -> (kept: W)
            ensures
                kept == w,
            { w };
        self.map_diagnosis(keep, map)
    }

    /// Maps every warning with `map`, keeping the errors.
    pub fn map_warnings<UW, F: Fn(W) -> UW>(self, map: F) -> (mapped: Contextuals<Diagnosis<UW, E>, C>)
        requires
            forall|w: W| call_requires(map, (w,)),
        ensures
            mapped@.kind == self@.kind,
            mapped@.ignored == self@.ignored,
            mapped@.items.len() == self@.items.len(),
            forall|i: int|
                0 <= i < self@.items.len() ==> (#[trigger] mapped@.items[i]).context
                    == self@.items[i].context && warning_mapped(
                    self@.items[i].value,
                    map,
                    mapped@.items[i].value,
                ),
    {
        let keep = |e: E| -> (kept: E)
            ensures
                kept == e,
            { e };
        self.map_diagnosis(map, keep)
    }
}

impl<T, W, E, C> Trisult<T, W, E, C> {
    /// Maps every error with `map`, keeping the value and the warnings.
    pub fn map_errors<UE, F: Fn(E) -> UE>(self, map: F) -> (mapped: Trisult<T, W, UE, C>)
        requires
            forall|e: E| call_requires(map, (e,)),
        ensures
            self is OkWith ==> mapped is OkWith && mapped->OkWith_0.0 == self->OkWith_0.0
                && mapped->OkWith_0.1@ == self->OkWith_0.1@,
            self is ErrWith ==> mapped is ErrWith && mapped->ErrWith_0@.kind == self->ErrWith_0@.kind
                && mapped->ErrWith_0@.ignored == self->ErrWith_0@.ignored
                && mapped->ErrWith_0@.items.len() == self->ErrWith_0@.items.len() && (forall|i: int|
                0 <= i < self->ErrWith_0@.items.len() ==> (#[trigger] mapped->ErrWith_0@.items[i]).context
                    == self->ErrWith_0@.items[i].context && error_mapped(
                    self->ErrWith_0@.items[i].value,
                    map,
                    mapped->ErrWith_0@.items[i].value,
                )),
    {
        match self {
            Trisult::OkWith(diagnosed) => Trisult::OkWith(diagnosed),
            Trisult::ErrWith(diagnoses) => Trisult::ErrWith(diagnoses.map_errors(map)),
        }
    }

    /// Maps every warning with `map`, keeping the value and the errors.
    pub fn map_warnings<UW, F: Fn(W) -> UW>(self, map: F) -> (mapped: Trisult<T, UW, E, C>)
        requires
            forall|w: W| call_requires(map, (w,)),
        ensures
            self is OkWith ==> mapped is OkWith && mapped->OkWith_0.0 == self->OkWith_0.0
                && mapped->OkWith_0.1@.kind == self->OkWith_0.1@.kind
                && mapped->OkWith_0.1@.ignored == self->OkWith_0.1@.ignored
                && mapped->OkWith_0.1@.items.len() == self->OkWith_0.1@.items.len() && (forall|i: int|
                0 <= i < self->OkWith_0.1@.items.len() ==> (#[trigger] mapped->OkWith_0.1@.items[i]).context
                    == self->OkWith_0.1@.items[i].context && call_ensures(
                    map,
                    (self->OkWith_0.1@.items[i].value,),
                    mapped->OkWith_0.1@.items[i].value,
                )),
            self is ErrWith ==> mapped is ErrWith && mapped->ErrWith_0@.kind == self->ErrWith_0@.kind
                && mapped->ErrWith_0@.ignored == self->ErrWith_0@.ignored
                && mapped->ErrWith_0@.items.len() == self->ErrWith_0@.items.len() && (forall|i: int|
                0 <= i < self->ErrWith_0@.items.len() ==> (#[trigger] mapped->ErrWith_0@.items[i]).context
                    == self->ErrWith_0@.items[i].context && warning_mapped(
                    self->ErrWith_0@.items[i].value,
                    map,
                    mapped->ErrWith_0@.items[i].value,
                )),
    {
        match self {
            Trisult::OkWith(Diagnosed(value, warnings)) => Trisult::OkWith(Diagnosed(value, warnings.map(map))),
            Trisult::ErrWith(diagnoses) => Trisult::ErrWith(diagnoses.map_warnings(map)),
        }
    }
}

impl<T, W, E, C> From<Trisult<T, W, E, C>> for Result<Diagnosed<T, W, C>, Diagnoses<W, E, C>> {
    fn from(trisult: Trisult<T, W, E, C>) -> (result: Self) {
        trisult.into_result()
    }
}

impl<T, W, E, C> vstd::std_specs::convert::FromSpecImpl<Trisult<T, W, E, C>> for Result<Diagnosed<T, W, C>, Diagnoses<W, E, C>> {
    open spec fn obeys_from_spec() -> bool {
        true
    }

    open spec fn from_spec(trisult: Trisult<T, W, E, C>) -> Self {
        match trisult {
            Trisult::OkWith(diagnosed) => Ok(diagnosed),
            Trisult::ErrWith(diagnoses) => Err(diagnoses),
        }
    }
}

} // verus!

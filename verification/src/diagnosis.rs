use vstd::prelude::*;
use vstd::string::*;

use crate::acc::all::map_items;
use crate::acc::AccumulatorState;
use crate::context::NoLoc;
use crate::contextual::{Accumulated, Contextual, Contextuals, extended};
use crate::traits::{MapDiagnosis, Prioritized, PriorityLevel};

verus! {

/// The severity of a diagnosis, which decides its priority when accumulating.
#[derive(Debug, Clone, Copy, PartialEq, Eq, PartialOrd, Ord, Structural)]
pub enum Severity {
    /// A non-fatal warning.
    Warning,
    /// A fatal error.
    Error,
}

impl PriorityLevel for Severity {
    open spec fn spec_level(&self) -> i128 {
        match self {
            Severity::Warning => 0,
            Severity::Error => 1,
        }
    }

    fn level(&self) -> (level: i128) {
        match self {
            Severity::Warning => 0,
            Severity::Error => 1,
        }
    }
}

/// A diagnostic message: either a non-fatal warning or a fatal error.
#[derive(Debug, Clone, PartialEq)]
pub enum Diagnosis<W, E> {
    /// A warning.
    Warning(W),
    /// An error.
    Error(E),
}

impl<W, E> Diagnosis<W, E> {
    /// A reference to the error, if this is an `Error`.
    pub fn as_error(&self) -> (error: Option<&E>)
        ensures
            self is Error ==> error == Some(&self->Error_0),
            self is Warning ==> error is None,
    {
        match self {
            Diagnosis::Warning(_) => None,
            Diagnosis::Error(error) => Some(error),
        }
    }

    /// A reference to the warning, if this is a `Warning`.
    pub fn as_warning(&self) -> (warning: Option<&W>)
        ensures
            self is Warning ==> warning == Some(&self->Warning_0),
            self is Error ==> warning is None,
    {
        match self {
            Diagnosis::Warning(warning) => Some(warning),
            Diagnosis::Error(_) => None,
        }
    }

    /// The error, if this is an `Error`.
    pub fn into_error(self) -> (error: Option<E>)
        ensures
            self is Error ==> error == Some(self->Error_0),
            self is Warning ==> error is None,
    {
        match self {
            Diagnosis::Error(error) => Some(error),
            Diagnosis::Warning(_) => None,
        }
    }

    /// The warning, if this is a `Warning`.
    pub fn into_warning(self) -> (warning: Option<W>)
        ensures
            self is Warning ==> warning == Some(self->Warning_0),
            self is Error ==> warning is None,
    {
        match self {
            Diagnosis::Error(_) => None,
            Diagnosis::Warning(warning) => Some(warning),
        }
    }

    /// Renders the diagnosis as `warning: {w}` or `error: {e}`, where `{w}` and `{e}` are
    /// given by `show_warning` and `show_error`.
    pub fn render<FW: Fn(&W) -> String, FE: Fn(&E) -> String>(
        &self,
        show_warning: FW,
        show_error: FE,
    ) -> (text: String)
        requires
            self is Warning ==> call_requires(show_warning, (&self->Warning_0,)),
            self is Error ==> call_requires(show_error, (&self->Error_0,)),
        ensures
            self is Warning ==> exists|shown: String|
                call_ensures(show_warning, (&self->Warning_0,), shown) && text@ == "warning: "@
                    + shown@,
            self is Error ==> exists|shown: String|
                call_ensures(show_error, (&self->Error_0,), shown) && text@ == "error: "@
                    + shown@,
    {
        match self {
            Diagnosis::Warning(warning) => {
                let shown = show_warning(warning);
                let text = String::from_str("warning: ").concat(shown.as_str());
                text
            },
            Diagnosis::Error(error) => {
                let shown = show_error(error);
                let text = String::from_str("error: ").concat(shown.as_str());
                text
            },
        }
    }
}

impl<W, E> Prioritized for Diagnosis<W, E> {
    type Priority = Severity;

    open spec fn spec_priority(&self) -> Severity {
        match self {
            Diagnosis::Warning(_) => Severity::Warning,
            Diagnosis::Error(_) => Severity::Error,
        }
    }

    fn priority(&self) -> (priority: Severity) {
        match self {
            Diagnosis::Warning(_) => Severity::Warning,
            Diagnosis::Error(_) => Severity::Error,
        }
    }
}

impl<W, E, UW, UE> MapDiagnosis<W, E, UW, UE> for Diagnosis<W, E> {
    type Target = Diagnosis<UW, UE>;

    fn map_diagnosis<FW: Fn(W) -> UW, FE: Fn(E) -> UE>(self, fw: FW, fe: FE) -> (mapped: Diagnosis<UW, UE>)
        ensures
            self is Warning ==> mapped is Warning && call_ensures(fw, (self->Warning_0,), mapped->Warning_0),
            self is Error ==> mapped is Error && call_ensures(fe, (self->Error_0,), mapped->Error_0),
    {
        match self {
            Diagnosis::Warning(warning) => Diagnosis::Warning(fw(warning)),
            Diagnosis::Error(error) => Diagnosis::Error(fe(error)),
        }
    }
}

/// Whether `mapped` is `diagnosis` with its warning mapped by `fw` or its error by `fe`.
pub open spec fn mapped_by<W, E, UW, UE, FW: Fn(W) -> UW, FE: Fn(E) -> UE>(
    diagnosis: Diagnosis<W, E>,
    fw: FW,
    fe: FE,
    mapped: Diagnosis<UW, UE>,
) -> bool {
    match diagnosis {
        Diagnosis::Warning(w) => mapped is Warning && call_ensures(fw, (w,), mapped->Warning_0),
        Diagnosis::Error(e) => mapped is Error && call_ensures(fe, (e,), mapped->Error_0),
    }
}

/// A `Contextual` holding a `Diagnosis`.
pub type ContextualDiagnosis<W, E, C = NoLoc> = Contextual<Diagnosis<W, E>, C>;

impl<W, E, C> Contextual<Diagnosis<W, E>, C> {
    /// The warning with its context, if the diagnosis is a `Warning`.
    pub fn as_warning(&self) -> (warning: Option<Contextual<&W, &C>>)
        ensures
            self.value is Warning ==> warning is Some && *warning->0.context == self.context
                && *warning->0.value == self.value->Warning_0,
            self.value is Error ==> warning is None,
    {
        match &self.value {
            Diagnosis::Warning(value) => Some(Contextual::new(&self.context, value)),
            Diagnosis::Error(_) => None,
        }
    }

    /// The error with its context, if the diagnosis is an `Error`.
    pub fn as_error(&self) -> (error: Option<Contextual<&E, &C>>)
        ensures
            self.value is Error ==> error is Some && *error->0.context == self.context
                && *error->0.value == self.value->Error_0,
            self.value is Warning ==> error is None,
    {
        match &self.value {
            Diagnosis::Warning(_) => None,
            Diagnosis::Error(value) => Some(Contextual::new(&self.context, value)),
        }
    }
}

impl<W, E, C, UW, UE> MapDiagnosis<W, E, UW, UE> for Contextual<Diagnosis<W, E>, C> {
    type Target = Contextual<Diagnosis<UW, UE>, C>;

    fn map_diagnosis<FW: Fn(W) -> UW, FE: Fn(E) -> UE>(self, fw: FW, fe: FE) -> (mapped: Contextual<
        Diagnosis<UW, UE>,
        C,
    >)
        ensures
            mapped.context == self.context,
            mapped_by(self.value, fw, fe, mapped.value),
    {
        Contextual::new(self.context, self.value.map_diagnosis(fw, fe))
    }
}

/// An accumulator of diagnoses.
pub type Diagnoses<W, E, C = NoLoc> = Contextuals<Diagnosis<W, E>, C>;

/// Every item of `items` is a warning.
pub open spec fn all_warnings<W, E, C>(items: Seq<Contextual<Diagnosis<W, E>, C>>) -> bool {
    forall|i: int| 0 <= i < items.len() ==> (#[trigger] items[i]).value is Warning
}

/// The items as diagnoses: each warning wrapped in `Diagnosis::Warning`.
pub open spec fn warning_diagnoses<W, E, C>(items: Seq<Contextual<W, C>>) -> Seq<
    Contextual<Diagnosis<W, E>, C>,
> {
    items.map_values(|item: Contextual<W, C>| (Contextual { context: item.context, value: Diagnosis::Warning(item.value) }))
}

/// The warnings held in diagnoses that are all warnings.
pub open spec fn unwrapped_warnings<W, E, C>(items: Seq<Contextual<Diagnosis<W, E>, C>>) -> Seq<
    Contextual<W, C>,
> {
    items.map_values(|item: Contextual<Diagnosis<W, E>, C>| (Contextual { context: item.context, value: item.value->Warning_0 }))
}

/// An accumulator of warnings seen as an accumulator of diagnoses.
pub open spec fn as_diagnoses<W, E, C>(warnings: Accumulated<W, C>) -> Accumulated<Diagnosis<W, E>, C> {
    Accumulated {
        kind: warnings.kind,
        items: warning_diagnoses(warnings.items),
        ignored: warnings.ignored,
    }
}

impl<W, C> Contextuals<W, C> {
    /// Wraps every warning in `Diagnosis::Warning`.
    pub fn into_diagnoses<E>(self) -> (diagnoses: Diagnoses<W, E, C>)
        ensures
            diagnoses@ == as_diagnoses::<W, E, C>(self@),
            diagnoses@.kind == self@.kind,
            diagnoses@.ignored == self@.ignored,
            diagnoses@.items.len() == self@.items.len(),
            forall|i: int|
                0 <= i < self@.items.len() ==> (#[trigger] diagnoses@.items[i]).context
                    == self@.items[i].context && diagnoses@.items[i].value == Diagnosis::<
                    W,
                    E,
                >::Warning(self@.items[i].value),
    {
        let ghost before = self@;
        let wrap = |warning: W| -> (d: Diagnosis<W, E>)
            ensures
                d == Diagnosis::<W, E>::Warning(warning),
            { Diagnosis::Warning(warning) };
        let mapped = self.map(wrap);
        assert(mapped@.items =~= warning_diagnoses::<W, E, C>(before.items));
        mapped
    }
}

impl<W, E, C> Contextuals<Diagnosis<W, E>, C> {
    /// Unwraps every diagnosis into its warning.
    ///
    /// Every diagnosis must be a warning. An empty accumulator gives an empty one of the
    /// same policy with nothing ignored.
    pub fn unwrap_as_warnings(self) -> (warnings: Contextuals<W, C>)
        requires
            all_warnings(self@.items),
        ensures
            warnings@.kind == self@.kind,
            warnings@.items == unwrapped_warnings(self@.items),
            warnings@.ignored == if self@.items.len() == 0 {
                0
            } else {
                self@.ignored
            },
    {
        if self.is_empty() {
            let warnings = Contextuals::new(AccumulatorState::new(self.kind()));
            assert(warnings@.items =~= unwrapped_warnings(self@.items));
            warnings
        } else {
            let ghost before = self@;
            let unwrap = |diagnosis: Diagnosis<W, E>| -> (warning: W)
                requires
                    diagnosis is Warning,
                ensures
                    warning == diagnosis->Warning_0,
                { diagnosis.into_warning().unwrap() };
            let warnings = self.map(unwrap);
            assert(warnings@.items =~= unwrapped_warnings(before.items));
            warnings
        }
    }

    /// Pushes every warning of `warnings`, wrapped in `Diagnosis::Warning`, respecting
    /// priorities. The count of items `warnings` had ignored is not carried over.
    pub fn append_warnings(&mut self, warnings: Contextuals<W, C>)
        ensures
            final(self)@ == extended(old(self)@, warning_diagnoses::<W, E, C>(warnings@.items)),
    {
        if warnings.is_empty() {
            assert(warning_diagnoses::<W, E, C>(warnings@.items) =~= Seq::empty());
            return ;
        }
        let ghost items = warnings@.items;
        let wrap = |warning: W| -> (d: Diagnosis<W, E>)
            ensures
                d == Diagnosis::<W, E>::Warning(warning),
            { Diagnosis::Warning(warning) };
        let wrapped = map_items(warnings.into_vec(), wrap);
        assert(wrapped@ =~= warning_diagnoses::<W, E, C>(items));
        self.extend(wrapped);
    }
}

impl<W, E, C, UW, UE> MapDiagnosis<W, E, UW, UE> for Contextuals<Diagnosis<W, E>, C> {
    type Target = Contextuals<Diagnosis<UW, UE>, C>;

    fn map_diagnosis<FW: Fn(W) -> UW, FE: Fn(E) -> UE>(self, fw: FW, fe: FE) -> (mapped: Contextuals<
        Diagnosis<UW, UE>,
        C,
    >)
        ensures
            mapped@.kind == self@.kind,
            mapped@.ignored == self@.ignored,
            mapped@.items.len() == self@.items.len(),
            forall|i: int|
                0 <= i < self@.items.len() ==> (#[trigger] mapped@.items[i]).context
                    == self@.items[i].context && mapped_by(
                    self@.items[i].value,
                    fw,
                    fe,
                    mapped@.items[i].value,
                ),
    {
        let fw_ref = &fw;
        let fe_ref = &fe;
        let each = |diagnosis: Diagnosis<W, E>| -> (mapped: Diagnosis<UW, UE>)
            requires
                forall|w: W| call_requires(*fw_ref, (w,)),
                forall|e: E| call_requires(*fe_ref, (e,)),
            ensures
                mapped_by(diagnosis, *fw_ref, *fe_ref, mapped),
            {
                match diagnosis {
                    Diagnosis::Warning(w) => Diagnosis::Warning(fw_ref(w)),
                    Diagnosis::Error(e) => Diagnosis::Error(fe_ref(e)),
                }
            };
        self.map(each)
    }
}

/// A successful value together with the warnings met while producing it.
#[derive(Debug, Clone)]
pub struct Diagnosed<T, W, C = NoLoc>(
    /// The successful value.
    pub T,
    /// The warnings.
    pub Contextuals<W, C>,
);

} // verus!

use vstd::prelude::*;

use crate::acc::all::reversed;
use crate::contextual::Contextual;
use crate::contextual::Contextuals;
use crate::diagnosis::{ContextualDiagnosis, Diagnosis, mapped_by};

verus! {

/// A cursor over references to the items of an accumulator, front to back.
#[derive(Debug)]
#[non_exhaustive]
pub struct ContextualIter<'a, T, C> {
    source: &'a [Contextual<T, C>],
    index: usize,
}

impl<'a, T, C> ContextualIter<'a, T, C> {
    #[verifier::type_invariant]
    spec fn index_in_bounds(self) -> bool {
        self.index <= self.source@.len()
    }

    /// The items not yet visited.
    pub closed spec fn remaining(&self) -> Seq<Contextual<T, C>> {
        self.source@.skip(self.index as int)
    }
}

impl<'a, T, C> View for ContextualIter<'a, T, C> {
    type V = Seq<Contextual<T, C>>;

    open spec fn view(&self) -> Seq<Contextual<T, C>> {
        self.remaining()
    }
}

impl<'a, T, C> ContextualIter<'a, T, C> {
    /// Creates a cursor at the front of `source`.
    pub fn new(source: &'a [Contextual<T, C>]) -> (iter: Self)
        ensures
            iter@ == source@,
    {
        let iter = ContextualIter { source, index: 0 };
        assert(iter.source@.skip(0) =~= source@);
        iter
    }

    /// The next item, as references into the source, or `None` when all were visited.
    pub fn next(&mut self) -> (item: Option<Contextual<&'a T, &'a C>>)
        ensures
            old(self)@.len() == 0 ==> item is None && final(self)@ == old(self)@,
            old(self)@.len() > 0 ==> item is Some && *item->0.context == old(self)@[0].context
                && *item->0.value == old(self)@[0].value && final(self)@ == old(self)@.drop_first(),
    {
        proof {
            use_type_invariant(&*self);
        }
        if self.index < self.source.len() {
            let source: &'a [Contextual<T, C>] = self.source;
            let item: &'a Contextual<T, C> = &source[self.index];
            self.index = self.index + 1;
            assert(self.source@.skip(self.index as int) =~= old(self)@.drop_first());
            Some(item.as_ref())
        } else {
            None
        }
    }

    /// The number of items not yet visited.
    pub fn len(&self) -> (len: usize)
        ensures
            len == self@.len(),
    {
        proof {
            use_type_invariant(self);
        }
        self.source.len() - self.index
    }

    /// Exact bounds on the number of items not yet visited.
    pub fn size_hint(&self) -> (hint: (usize, Option<usize>))
        ensures
            hint.0 == self@.len(),
            hint.1 == Some(self@.len() as usize),
    {
        let len = self.len();
        (len, Some(len))
    }
}

/// A cursor that maps the warnings and errors of a sequence of contextual diagnoses as it
/// hands them out, front to back.
#[verifier::reject_recursive_types(W)]
#[verifier::reject_recursive_types(E)]
#[verifier::reject_recursive_types(UW)]
#[verifier::reject_recursive_types(UE)]
pub struct MapIter<W, E, UW, UE, C, FW, FE> where FW: Fn(W) -> UW, FE: Fn(E) -> UE {
    pending: Vec<ContextualDiagnosis<W, E, C>>,
    fw: FW,
    fe: FE,
    _mapped: core::marker::PhantomData<(UW, UE)>,
}

impl<W, E, UW, UE, C, FW, FE> View for MapIter<W, E, UW, UE, C, FW, FE> where
    FW: Fn(W) -> UW,
    FE: Fn(E) -> UE,
 {
    type V = Seq<ContextualDiagnosis<W, E, C>>;

    /// The diagnoses not yet handed out, in order.
    closed spec fn view(&self) -> Seq<ContextualDiagnosis<W, E, C>> {
        self.pending@.reverse()
    }
}

impl<W, E, UW, UE, C, FW, FE> MapIter<W, E, UW, UE, C, FW, FE> where
    FW: Fn(W) -> UW,
    FE: Fn(E) -> UE,
 {
    /// The map applied to warnings.
    pub closed spec fn warning_map(&self) -> FW {
        self.fw
    }

    /// The map applied to errors.
    pub closed spec fn error_map(&self) -> FE {
        self.fe
    }

    /// Creates a cursor over `source` that maps warnings with `fw` and errors with `fe`.
    pub fn new(source: Vec<ContextualDiagnosis<W, E, C>>, fw: FW, fe: FE) -> (iter: Self)
        ensures
            iter@ == source@,
            iter.warning_map() == fw,
            iter.error_map() == fe,
    {
        let pending = reversed(source);
        assert(pending@.reverse() =~= source@);
        MapIter { pending, fw, fe, _mapped: core::marker::PhantomData }
    }

    /// The next diagnosis, mapped, or `None` when all were handed out.
    pub fn next(&mut self) -> (item: Option<ContextualDiagnosis<UW, UE, C>>)
        requires
            forall|w: W| call_requires(old(self).warning_map(), (w,)),
            forall|e: E| call_requires(old(self).error_map(), (e,)),
        ensures
            final(self).warning_map() == old(self).warning_map(),
            final(self).error_map() == old(self).error_map(),
            old(self)@.len() == 0 ==> item is None && final(self)@ == old(self)@,
            old(self)@.len() > 0 ==> item is Some && item->0.context == old(self)@[0].context
                && mapped_by(old(self)@[0].value, old(self).warning_map(), old(self).error_map(), item->0.value)
                && final(self)@ == old(self)@.drop_first(),
    {
        match self.pending.pop() {
            None => None,
            Some(diagnosis) => {
                assert(old(self)@[0] == diagnosis);
                assert(self.pending@.reverse() =~= old(self)@.drop_first());
                let value = match diagnosis.value {
                    Diagnosis::Warning(w) => {
                        assert(call_requires(old(self).warning_map(), (w,)));
                        Diagnosis::Warning((self.fw)(w))
                    },
                    Diagnosis::Error(e) => {
                        assert(call_requires(old(self).error_map(), (e,)));
                        Diagnosis::Error((self.fe)(e))
                    },
                };
                Some(Contextual::new(diagnosis.context, value))
            },
        }
    }

    /// The number of diagnoses not yet handed out.
    pub fn len(&self) -> (len: usize)
        ensures
            len == self@.len(),
    {
        self.pending.len()
    }

    /// Exact bounds on the number of diagnoses not yet handed out.
    pub fn size_hint(&self) -> (hint: (usize, Option<usize>))
        ensures
            hint.0 == self@.len(),
            hint.1 == Some(self@.len() as usize),
    {
        let len = self.pending.len();
        (len, Some(len))
    }
}

impl<W, E, C> Contextuals<Diagnosis<W, E>, C> {
    /// A cursor over the diagnoses kept, in order, that maps warnings with `fw` and errors
    /// with `fe` as it hands them out.
    pub fn into_map_iter<UW, UE, FW: Fn(W) -> UW, FE: Fn(E) -> UE>(self, fw: FW, fe: FE) -> (iter:
        MapIter<W, E, UW, UE, C, FW, FE>)
        ensures
            iter@ == self@.items,
            iter.warning_map() == fw,
            iter.error_map() == fe,
    {
        MapIter::new(self.into_vec(), fw, fe)
    }
}

} // verus!

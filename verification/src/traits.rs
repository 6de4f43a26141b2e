use vstd::prelude::*;

verus! {

/// An integer level by which priorities are ordered: a higher level means a higher priority.
pub trait PriorityLevel {
    /// The level of this priority.
    spec fn spec_level(&self) -> i128;

    /// Computes the level of this priority.
    fn level(&self) -> (level: i128)
        ensures
            level == self.spec_level(),
    ;
}

impl PriorityLevel for i8 {
    open spec fn spec_level(&self) -> i128 {
        *self as i128
    }

    fn level(&self) -> (level: i128) {
        *self as i128
    }
}

impl PriorityLevel for i16 {
    open spec fn spec_level(&self) -> i128 {
        *self as i128
    }

    fn level(&self) -> (level: i128) {
        *self as i128
    }
}

impl PriorityLevel for i32 {
    open spec fn spec_level(&self) -> i128 {
        *self as i128
    }

    fn level(&self) -> (level: i128) {
        *self as i128
    }
}

impl PriorityLevel for i64 {
    open spec fn spec_level(&self) -> i128 {
        *self as i128
    }

    fn level(&self) -> (level: i128) {
        *self as i128
    }
}

impl PriorityLevel for i128 {
    open spec fn spec_level(&self) -> i128 {
        *self
    }

    fn level(&self) -> (level: i128) {
        *self
    }
}

impl PriorityLevel for isize {
    open spec fn spec_level(&self) -> i128 {
        *self as i128
    }

    fn level(&self) -> (level: i128) {
        *self as i128
    }
}

impl PriorityLevel for u8 {
    open spec fn spec_level(&self) -> i128 {
        *self as i128
    }

    fn level(&self) -> (level: i128) {
        *self as i128
    }
}

impl PriorityLevel for u16 {
    open spec fn spec_level(&self) -> i128 {
        *self as i128
    }

    fn level(&self) -> (level: i128) {
        *self as i128
    }
}

impl PriorityLevel for u32 {
    open spec fn spec_level(&self) -> i128 {
        *self as i128
    }

    fn level(&self) -> (level: i128) {
        *self as i128
    }
}

impl PriorityLevel for u64 {
    open spec fn spec_level(&self) -> i128 {
        *self as i128
    }

    fn level(&self) -> (level: i128) {
        *self as i128
    }
}

impl PriorityLevel for usize {
    open spec fn spec_level(&self) -> i128 {
        *self as i128
    }

    fn level(&self) -> (level: i128) {
        *self as i128
    }
}

/// A type whose values carry a priority.
///
/// An implementation states the priority of a value in `spec_priority`, and computes that
/// same priority in `priority`.
pub trait Prioritized {
    /// The priority type; priorities are compared by their [`PriorityLevel`].
    type Priority: PriorityLevel;

    /// The priority of this value.
    spec fn spec_priority(&self) -> Self::Priority;

    /// Computes the priority of this value.
    fn priority(&self) -> (priority: Self::Priority)
        ensures
            priority == self.spec_priority(),
    ;
}

/// The level of a value's priority.
pub open spec fn rank<T: Prioritized>(value: T) -> i128 {
    value.spec_priority().spec_level()
}

/// Maps the warning and error components of a diagnostic container.
pub trait MapDiagnosis<W, E, UW, UE>: Sized {
    /// The container after mapping.
    type Target;

    /// Maps every warning with `fw` and every error with `fe`, keeping everything else.
    fn map_diagnosis<FW: Fn(W) -> UW, FE: Fn(E) -> UE>(self, fw: FW, fe: FE) -> Self::Target
        requires
            forall|w: W| call_requires(fw, (w,)),
            forall|e: E| call_requires(fe, (e,)),
    ;
}

} // verus!

use vstd::prelude::*;
use vstd::string::*;

verus! {

/// A marker trait for types that can represent a captured context (such as a source location).
pub trait CapturedContext {}

impl<T: Clone> CapturedContext for T {}

/// A stack or source of context, able to capture its current state.
pub trait ContextStack {
    /// The type of context captured from this stack.
    type Captured: CapturedContext;
}

/// A [`ContextStack`] onto which segments can be pushed and popped to form nested contexts.
pub trait ContextStackMut: ContextStack {
    /// The segment type that can be pushed onto this stack.
    type Segment;

    /// Captures the current state of the stack.
    fn capture(&self) -> Self::Captured;

    /// Pushes a new segment onto the stack.
    fn push(&mut self, segment: Self::Segment);

    /// Removes the most recently pushed segment.
    fn pop(&mut self);
}

/// A zero-sized type representing the absence of location information.
#[derive(Debug, Clone, Copy, Hash, Eq, PartialEq, Structural)]
pub struct NoLoc;

impl NoLoc {
    /// The text that stands for a missing location.
    pub fn render(&self) -> (text: String)
        ensures
            text@ == "no-location"@,
    {
        String::from_str("no-location")
    }
}

impl ContextStack for NoLoc {
    type Captured = Self;
}

impl ContextStackMut for NoLoc {
    type Segment = ();

    fn capture(&self) -> (captured: NoLoc)
        ensures
            captured == NoLoc,
    {
        NoLoc
    }

    fn push(&mut self, _segment: ())
        ensures
            *final(self) == NoLoc,
    {
    }

    fn pop(&mut self)
        ensures
            *final(self) == NoLoc,
    {
    }
}

impl<'a, T: ContextStack> ContextStack for &'a T {
    type Captured = &'a T::Captured;
}

} // verus!

//! State that an endpoint is given, and the substates derived from it.

use vstd::prelude::*;

verus! {

/// Reference-to-value conversions, used to derive a substate from the
/// application's state.
pub trait FromRef<T>: Sized {
    /// `out` is a value that `from_ref` may give for `input`; by default, any
    /// value.
    open spec fn derives(input: T, out: Self) -> bool {
        true
    }

    /// Converts to this type from a reference to the input type.
    fn from_ref(input: &T) -> (out: Self)
        ensures
            Self::derives(*input, out),
    ;
}

/// Any type is derived from itself by cloning it.
impl<T: Clone> FromRef<T> for T {
    open spec fn derives(input: T, out: T) -> bool {
        cloned(input, out)
    }

    fn from_ref(input: &T) -> (out: T) {
        input.clone()
    }
}

/// The state that a handler receives, derived from the state that its
/// endpoint was given.
#[derive(Debug, Default, Clone, Copy)]
pub struct State<S>(pub S);

impl<S> State<S> {
    /// The state that `outer` gives a handler asking for `State<S>`.
    pub fn from_state<O>(outer: &O) -> (st: State<S>)
        where S: FromRef<O>,
        ensures
            S::derives(*outer, st.0),
    {
        State(S::from_ref(outer))
    }
}

impl<S> std::ops::Deref for State<S> {
    type Target = S;

    fn deref(&self) -> (s: &S)
        ensures
            *s == self.0,
    {
        &self.0
    }
}

impl<S> std::ops::DerefMut for State<S> {
    fn deref_mut(&mut self) -> (s: &mut S)
        ensures
            *s == old(self).0,
            final(self).0 == *final(s),
    {
        &mut self.0
    }
}

/// Wrapper under which an endpoint's state is stored among a request's
/// extensions.
#[derive(Clone)]
pub struct StateData<S>(pub S);

} // verus!

use std::marker::PhantomData;

use vstd::prelude::*;

use crate::endpoint::endpoint::Endpoint;
use crate::message::{Error, IntoResponse, Request};

verus! {

/// Endpoint for the [`and_then`](super::EndpointExt::and_then) method: calls
/// the function on the inner endpoint's output, and passes its error on.
#[verifier::reject_recursive_types(R2)]
pub struct AndThen<E: Endpoint<S>, F: Fn(E::Output) -> Result<R2, Error>, R2, S = ()> {
    inner: E,
    f: F,
    _mark: PhantomData<(R2, S)>,
}

impl<E: Endpoint<S>, F: Fn(E::Output) -> Result<R2, Error>, R2, S> AndThen<E, F, R2, S> {
    /// The function may be called on any output of the inner endpoint.
    #[verifier::type_invariant]
    spec fn callable(self) -> bool {
        forall|o: E::Output| call_requires(self.f, (o,))
    }

    /// Creates the endpoint.
    pub fn new(inner: E, f: F) -> (a: AndThen<E, F, R2, S>)
        requires
            forall|o: E::Output| call_requires(f, (o,)),
        ensures
            a.inner() == inner,
            a.func() == f,
    {
        Self { inner, f, _mark: PhantomData }
    }

    /// The wrapped endpoint.
    pub closed spec fn inner(self) -> E {
        self.inner
    }

    /// The function called on the output.
    pub closed spec fn func(self) -> F {
        self.f
    }
}

impl<E, F, R2, S> Endpoint<S> for AndThen<E, F, R2, S> where
    E: Endpoint<S>,
    F: Fn(E::Output) -> Result<R2, Error> + Send + Sync,
    R2: IntoResponse + Send + Sync,
    S: Send + Sync,
 {
    type Output = R2;

    /// The function's result when the inner endpoint succeeds; the inner
    /// endpoint's error otherwise.
    open spec fn gives(&self, req: Request, state: S, res: Result<R2, Error>) -> bool {
        exists|r: Result<E::Output, Error>| #[trigger]
            self.inner().gives(req, state, r) && match r {
                Ok(o) => call_ensures(self.func(), (o,), res),
                Err(e) => res == Err::<R2, Error>(e),
            }
    }

    fn call(&self, req: Request, state: &S) -> (res: Result<R2, Error>) {
        proof {
            use_type_invariant(self);
        }
        let ghost req0 = req;
        let r = self.inner.call(req, state);
        let ghost r0 = r;
        match r {
            Ok(o) => {
                let res = (self.f)(o);
                assert(self.inner().gives(req0, *state, r0));
                res
            },
            Err(e) => {
                assert(self.inner().gives(req0, *state, r0));
                Err(e)
            },
        }
    }
}

} // verus!

use std::marker::PhantomData;

use vstd::prelude::*;

use crate::endpoint::endpoint::Endpoint;
use crate::message::{Error, IntoResponse, Request};

verus! {

/// Endpoint for the [`after`](super::EndpointExt::after) method: calls the
/// inner endpoint, then maps its result.
#[verifier::reject_recursive_types(T)]
pub struct After<E: Endpoint<S>, F: Fn(Result<E::Output, Error>) -> Result<T, Error>, T, S = ()> {
    inner: E,
    f: F,
    _mark: PhantomData<(T, S)>,
}

impl<E: Endpoint<S>, F: Fn(Result<E::Output, Error>) -> Result<T, Error>, T, S> After<E, F, T, S> {
    /// The function may be called on any result of the inner endpoint.
    #[verifier::type_invariant]
    spec fn callable(self) -> bool {
        forall|r: Result<E::Output, Error>| call_requires(self.f, (r,))
    }

    /// Creates the endpoint.
    pub fn new(inner: E, f: F) -> (a: After<E, F, T, S>)
        requires
            forall|r: Result<E::Output, Error>| call_requires(f, (r,)),
        ensures
            a.inner() == inner,
            a.func() == f,
    {
        Self { inner, f, _mark: PhantomData }
    }

    /// The wrapped endpoint.
    pub closed spec fn inner(self) -> E {
        self.inner
    }

    /// The function that maps the result.
    pub closed spec fn func(self) -> F {
        self.f
    }
}

impl<E, F, T, S> Endpoint<S> for After<E, F, T, S> where
    E: Endpoint<S>,
    F: Fn(Result<E::Output, Error>) -> Result<T, Error> + Send + Sync,
    T: IntoResponse + Send + Sync,
    S: Send + Sync,
 {
    type Output = T;

    /// Whatever the inner endpoint returns, error or not, goes to the function.
    open spec fn gives(&self, req: Request, state: S, res: Result<T, Error>) -> bool {
        exists|r: Result<E::Output, Error>| #[trigger]
            self.inner().gives(req, state, r) && call_ensures(self.func(), (r,), res)
    }

    fn call(&self, req: Request, state: &S) -> (res: Result<T, Error>) {
        proof {
            use_type_invariant(self);
        }
        let ghost req0 = req;
        let r = self.inner.call(req, state);
        let ghost r0 = r;
        let res = (self.f)(r);
        assert(self.inner().gives(req0, *state, r0) && call_ensures(self.func(), (r0,), res));
        res
    }
}

} // verus!

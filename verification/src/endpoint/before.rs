use std::marker::PhantomData;

use vstd::prelude::*;

use crate::endpoint::endpoint::Endpoint;
use crate::message::{Error, Request};

verus! {

/// Endpoint for the [`before`](super::EndpointExt::before) method: maps the
/// request, then calls the inner endpoint.
pub struct Before<E, F: Fn(Request) -> Result<Request, Error>, S = ()> {
    inner: E,
    f: F,
    _mark: PhantomData<S>,
}

impl<E, F: Fn(Request) -> Result<Request, Error>, S> Before<E, F, S> {
    /// The function may be called on any request.
    #[verifier::type_invariant]
    spec fn callable(self) -> bool {
        forall|req: Request| call_requires(self.f, (req,))
    }

    /// Creates the endpoint.
    pub fn new(inner: E, f: F) -> (b: Before<E, F, S>)
        requires
            forall|req: Request| call_requires(f, (req,)),
        ensures
            b.inner() == inner,
            b.func() == f,
    {
        Self { inner, f, _mark: PhantomData }
    }

    /// The wrapped endpoint.
    pub closed spec fn inner(self) -> E {
        self.inner
    }

    /// The function that maps the request.
    pub closed spec fn func(self) -> F {
        self.f
    }
}

impl<E, F, S> Endpoint<S> for Before<E, F, S> where
    E: Endpoint<S>,
    F: Fn(Request) -> Result<Request, Error> + Send + Sync,
    S: Send + Sync,
 {
    type Output = E::Output;

    /// The function's error is returned as it is; its request goes to the
    /// inner endpoint.
    open spec fn gives(&self, req: Request, state: S, res: Result<E::Output, Error>) -> bool {
        exists|m: Result<Request, Error>| #[trigger]
            call_ensures(self.func(), (req,), m) && match m {
                Ok(req2) => self.inner().gives(req2, state, res),
                Err(e) => res == Err::<E::Output, Error>(e),
            }
    }

    fn call(&self, req: Request, state: &S) -> (res: Result<E::Output, Error>) {
        proof {
            use_type_invariant(self);
        }
        let ghost req0 = req;
        let m = (self.f)(req);
        let ghost m0 = m;
        match m {
            Ok(req2) => {
                let res = self.inner.call(req2, state);
                assert(call_ensures(self.func(), (req0,), m0));
                res
            },
            Err(e) => {
                assert(call_ensures(self.func(), (req0,), m0));
                Err(e)
            },
        }
    }
}

} // verus!

use std::marker::PhantomData;

use vstd::prelude::*;

use crate::endpoint::endpoint::Endpoint;
use crate::message::{Error, IntoResponse, Request, Response};

verus! {

/// Endpoint for the [`catch_all_error`](super::EndpointExt::catch_all_error)
/// method: turns the inner endpoint's output into a response, and any error
/// into the response that the function gives for it.
#[verifier::reject_recursive_types(R)]
pub struct CatchAllError<E, F: Fn(Error) -> R, R, S = ()> {
    inner: E,
    f: F,
    _mark: PhantomData<(R, S)>,
}

impl<E, F: Fn(Error) -> R, R, S> CatchAllError<E, F, R, S> {
    /// The function may be called on any error.
    #[verifier::type_invariant]
    spec fn callable(self) -> bool {
        forall|e: Error| call_requires(self.f, (e,))
    }

    /// Creates the endpoint.
    pub fn new(inner: E, f: F) -> (c: CatchAllError<E, F, R, S>)
        requires
            forall|e: Error| call_requires(f, (e,)),
        ensures
            c.inner() == inner,
            c.func() == f,
    {
        Self { inner, f, _mark: PhantomData }
    }

    /// The wrapped endpoint.
    pub closed spec fn inner(self) -> E {
        self.inner
    }

    /// The function that handles errors.
    pub closed spec fn func(self) -> F {
        self.f
    }
}

impl<E, F, R, S> Endpoint<S> for CatchAllError<E, F, R, S> where
    E: Endpoint<S>,
    F: Fn(Error) -> R + Send + Sync,
    R: IntoResponse + Send + Sync,
    S: Send + Sync,
 {
    type Output = Response;

    open spec fn gives(&self, req: Request, state: S, res: Result<Response, Error>) -> bool {
        exists|r: Result<E::Output, Error>| #[trigger]
            self.inner().gives(req, state, r) && match r {
                Ok(o) => res matches Ok(resp) && resp@ == o.response_view(),
                Err(e) => exists|h: R| #[trigger]
                    call_ensures(self.func(), (e,), h) && (res matches Ok(resp) && resp@
                        == h.response_view()),
            }
    }

    fn call(&self, req: Request, state: &S) -> (res: Result<Response, Error>) {
        proof {
            use_type_invariant(self);
        }
        let ghost req0 = req;
        let r = self.inner.call(req, state);
        let ghost r0 = r;
        match r {
            Ok(resp) => {
                let res = Ok(resp.into_response());
                assert(self.inner().gives(req0, *state, r0));
                res
            },
            Err(err) => {
                let ghost e0 = err;
                let h = (self.f)(err);
                let ghost h0 = h;
                let res = Ok(h.into_response());
                assert(call_ensures(self.func(), (e0,), h0));
                assert(self.inner().gives(req0, *state, r0));
                res
            },
        }
    }
}

} // verus!

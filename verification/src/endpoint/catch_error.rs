use std::marker::PhantomData;

use vstd::prelude::*;

use crate::endpoint::endpoint::Endpoint;
use crate::message::{Error, ErrorType, IntoResponse, Request, Response};

verus! {

/// Endpoint for the [`catch_error`](super::EndpointExt::catch_error) method:
/// turns the inner endpoint's output into a response, and an error of type
/// `ErrType` into the response that the function gives for it; other errors
/// pass through.
#[verifier::reject_recursive_types(R)]
#[verifier::reject_recursive_types(ErrType)]
pub struct CatchError<E, F: Fn(ErrType) -> R, R, ErrType, S = ()> {
    inner: E,
    f: F,
    _mark: PhantomData<(R, ErrType, S)>,
}

impl<E, F: Fn(ErrType) -> R, R, ErrType, S> CatchError<E, F, R, ErrType, S> {
    /// The function may be called on any error of the caught type.
    #[verifier::type_invariant]
    spec fn callable(self) -> bool {
        forall|e: ErrType| call_requires(self.f, (e,))
    }

    /// Creates the endpoint.
    pub fn new(inner: E, f: F) -> (c: CatchError<E, F, R, ErrType, S>)
        requires
            forall|e: ErrType| call_requires(f, (e,)),
        ensures
            c.inner() == inner,
            c.func() == f,
    {
        Self { inner, f, _mark: PhantomData }
    }

    /// The wrapped endpoint.
    pub closed spec fn inner(self) -> E {
        self.inner
    }

    /// The function that handles the caught errors.
    pub closed spec fn func(self) -> F {
        self.f
    }
}

impl<E, F, R, ErrType, S> Endpoint<S> for CatchError<E, F, R, ErrType, S> where
    E: Endpoint<S>,
    F: Fn(ErrType) -> R + Send + Sync,
    R: IntoResponse + Send + Sync,
    ErrType: ErrorType + Send + Sync + 'static,
    S: Send + Sync,
 {
    type Output = Response;

    open spec fn gives(&self, req: Request, state: S, res: Result<Response, Error>) -> bool {
        exists|r: Result<E::Output, Error>| #[trigger]
            self.inner().gives(req, state, r) && match r {
                Ok(o) => res matches Ok(resp) && resp@ == o.response_view(),
                Err(e) => match ErrType::spec_downcast(e) {
                    Some(t) => exists|h: R| #[trigger]
                        call_ensures(self.func(), (t,), h) && (res matches Ok(resp) && resp@
                            == h.response_view()),
                    None => res == Err::<Response, Error>(e),
                },
            }
    }

    fn call(&self, req: Request, state: &S) -> (res: Result<Response, Error>) {
        proof {
            use_type_invariant(self);
        }
        let ghost req0 = req;
        let r = self.inner.call(req, state);
        let ghost r0 = r;
        match r {
            Ok(resp) => {
                let res = Ok(resp.into_response());
                assert(self.inner().gives(req0, *state, r0));
                res
            },
            Err(err) => match ErrType::downcast(&err) {
                Some(t) => {
                    let ghost t0 = t;
                    let h = (self.f)(t);
                    let ghost h0 = h;
                    let res = Ok(h.into_response());
                    assert(call_ensures(self.func(), (t0,), h0));
                    assert(self.inner().gives(req0, *state, r0));
                    res
                },
                None => {
                    assert(self.inner().gives(req0, *state, r0));
                    Err(err)
                },
            },
        }
    }
}

} // verus!

use std::marker::PhantomData;

use vstd::prelude::*;

use crate::endpoint::endpoint::Endpoint;
use crate::message::{Error, IntoResponse, Request};

verus! {

/// Endpoint for the [`map`](super::EndpointExt::map) method: maps the inner
/// endpoint's output, and passes its error on.
#[verifier::reject_recursive_types(R2)]
pub struct MapEndpoint<E: Endpoint<S>, F: Fn(E::Output) -> R2, R2, S = ()> {
    inner: E,
    f: F,
    _mark: PhantomData<(R2, S)>,
}

impl<E: Endpoint<S>, F: Fn(E::Output) -> R2, R2, S> MapEndpoint<E, F, R2, S> {
    /// The function may be called on any output of the inner endpoint.
    #[verifier::type_invariant]
    spec fn callable(self) -> bool {
        forall|o: E::Output| call_requires(self.f, (o,))
    }

    /// Creates the endpoint.
    pub fn new(inner: E, f: F) -> (m: MapEndpoint<E, F, R2, S>)
        requires
            forall|o: E::Output| call_requires(f, (o,)),
        ensures
            m.inner() == inner,
            m.func() == f,
    {
        Self { inner, f, _mark: PhantomData }
    }

    /// The wrapped endpoint.
    pub closed spec fn inner(self) -> E {
        self.inner
    }

    /// The function that maps the output.
    pub closed spec fn func(self) -> F {
        self.f
    }
}

impl<E, F, R2, S> Endpoint<S> for MapEndpoint<E, F, R2, S> where
    E: Endpoint<S>,
    F: Fn(E::Output) -> R2 + Send + Sync,
    R2: IntoResponse + Send + Sync,
    S: Send + Sync,
 {
    type Output = R2;

    /// The mapped output when the inner endpoint succeeds; its error otherwise.
    open spec fn gives(&self, req: Request, state: S, res: Result<R2, Error>) -> bool {
        exists|r: Result<E::Output, Error>| #[trigger]
            self.inner().gives(req, state, r) && match r {
                Ok(o) => res matches Ok(v) && call_ensures(self.func(), (o,), v),
                Err(e) => res == Err::<R2, Error>(e),
            }
    }

    fn call(&self, req: Request, state: &S) -> (res: Result<R2, Error>) {
        proof {
            use_type_invariant(self);
        }
        let ghost req0 = req;
        let r = self.inner.call(req, state);
        let ghost r0 = r;
        match r {
            Ok(o) => {
                let v = (self.f)(o);
                assert(self.inner().gives(req0, *state, r0));
                Ok(v)
            },
            Err(e) => {
                assert(self.inner().gives(req0, *state, r0));
                Err(e)
            },
        }
    }
}

} // verus!

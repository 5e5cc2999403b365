use std::marker::PhantomData;

use vstd::prelude::*;

use crate::endpoint::endpoint::Endpoint;
use crate::message::{Error, Request};

verus! {

/// Endpoint for the [`inspect_all_err`](super::EndpointExt::inspect_all_err)
/// method: hands each error of the inner endpoint to a function and returns
/// the inner endpoint's result unchanged.
pub struct InspectAllError<E, F: Fn(&Error), S = ()> {
    inner: E,
    f: F,
    _mark: PhantomData<S>,
}

impl<E, F: Fn(&Error), S> InspectAllError<E, F, S> {
    /// The function may be called on any error.
    #[verifier::type_invariant]
    spec fn callable(self) -> bool {
        forall|e: Error| call_requires(self.f, (&e,))
    }

    /// Creates the endpoint.
    pub fn new(inner: E, f: F) -> (i: InspectAllError<E, F, S>)
        requires
            forall|e: Error| call_requires(f, (&e,)),
        ensures
            i.inner() == inner,
            i.func() == f,
    {
        Self { inner, f, _mark: PhantomData }
    }

    /// The wrapped endpoint.
    pub closed spec fn inner(self) -> E {
        self.inner
    }

    /// The function that sees each error.
    pub closed spec fn func(self) -> F {
        self.f
    }
}

impl<E, F, S> Endpoint<S> for InspectAllError<E, F, S> where
    E: Endpoint<S>,
    F: Fn(&Error) + Send + Sync,
    S: Send + Sync,
 {
    type Output = E::Output;

    open spec fn gives(&self, req: Request, state: S, res: Result<E::Output, Error>) -> bool {
        &&& self.inner().gives(req, state, res)
        &&& res matches Err(e) ==> call_ensures(self.func(), (&e,), ())
    }

    fn call(&self, req: Request, state: &S) -> (res: Result<E::Output, Error>) {
        proof {
            use_type_invariant(self);
        }
        let r = self.inner.call(req, state);
        match r {
            Ok(resp) => Ok(resp),
            Err(err) => {
                (self.f)(&err);
                Err(err)
            },
        }
    }
}

} // verus!

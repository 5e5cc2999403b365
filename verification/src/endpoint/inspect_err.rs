use std::marker::PhantomData;

use vstd::prelude::*;

use crate::endpoint::endpoint::Endpoint;
use crate::message::{Error, ErrorType, Request};

verus! {

/// Endpoint for the [`inspect_err`](super::EndpointExt::inspect_err) method:
/// hands each error of type `ErrType` to a function and returns the inner
/// endpoint's result unchanged.
#[verifier::reject_recursive_types(ErrType)]
pub struct InspectError<E, F: Fn(&ErrType), ErrType, S = ()> {
    inner: E,
    f: F,
    _mark: PhantomData<(ErrType, S)>,
}

impl<E, F: Fn(&ErrType), ErrType, S> InspectError<E, F, ErrType, S> {
    /// The function may be called on any error of the inspected type.
    #[verifier::type_invariant]
    spec fn callable(self) -> bool {
        forall|e: ErrType| call_requires(self.f, (&e,))
    }

    /// Creates the endpoint.
    pub fn new(inner: E, f: F) -> (i: InspectError<E, F, ErrType, S>)
        requires
            forall|e: ErrType| call_requires(f, (&e,)),
        ensures
            i.inner() == inner,
            i.func() == f,
    {
        Self { inner, f, _mark: PhantomData }
    }

    /// The wrapped endpoint.
    pub closed spec fn inner(self) -> E {
        self.inner
    }

    /// The function that sees each error of the inspected type.
    pub closed spec fn func(self) -> F {
        self.f
    }
}

impl<E, F, ErrType, S> Endpoint<S> for InspectError<E, F, ErrType, S> where
    E: Endpoint<S>,
    F: Fn(&ErrType) + Send + Sync,
    ErrType: ErrorType + Send + Sync + 'static,
    S: Send + Sync,
 {
    type Output = E::Output;

    open spec fn gives(&self, req: Request, state: S, res: Result<E::Output, Error>) -> bool {
        &&& self.inner().gives(req, state, res)
        &&& res matches Err(e) ==> (ErrType::spec_downcast(e) matches Some(t) ==> call_ensures(
            self.func(),
            (&t,),
            (),
        ))
    }

    fn call(&self, req: Request, state: &S) -> (res: Result<E::Output, Error>) {
        proof {
            use_type_invariant(self);
        }
        let r = self.inner.call(req, state);
        match r {
            Ok(resp) => Ok(resp),
            Err(err) => {
                match ErrType::downcast(&err) {
                    Some(t) => {
                        (self.f)(&t);
                    },
                    None => {},
                }
                Err(err)
            },
        }
    }
}

} // verus!

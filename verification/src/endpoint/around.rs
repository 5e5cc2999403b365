use std::marker::PhantomData;
use std::sync::Arc;

use vstd::prelude::*;

use crate::endpoint::endpoint::Endpoint;
use crate::message::{Error, IntoResponse, Request};

verus! {

/// Calls `Arc::clone`, which gives another pointer to the same value.
#[verifier::external_body]
fn arc_clone<T>(a: &Arc<T>) -> (r: Arc<T>)
    ensures
        r == *a,
{
    Arc::clone(a)
}

/// Endpoint for the [`around`](super::EndpointExt::around) method: hands the
/// inner endpoint, the request and a clone of the state to a function, which
/// gives the result.
#[verifier::reject_recursive_types(T)]
#[verifier::reject_recursive_types(S)]
pub struct Around<E, F: Fn(Arc<E>, Request, S) -> Result<T, Error>, T, S> {
    inner: Arc<E>,
    f: F,
    _mark: PhantomData<(T, S)>,
}

impl<E, F: Fn(Arc<E>, Request, S) -> Result<T, Error>, T, S> Around<E, F, T, S> {
    /// The function may be called on the inner endpoint with any request and state.
    #[verifier::type_invariant]
    spec fn callable(self) -> bool {
        forall|req: Request, st: S| call_requires(self.f, (self.inner, req, st))
    }

    /// Creates the endpoint.
    pub fn new(inner: E, f: F) -> (a: Around<E, F, T, S>)
        requires
            forall|ep: Arc<E>, req: Request, st: S| call_requires(f, (ep, req, st)),
        ensures
            *a.inner() == inner,
            a.func() == f,
    {
        Self { inner: Arc::new(inner), f, _mark: PhantomData }
    }

    /// The wrapped endpoint.
    pub closed spec fn inner(self) -> Arc<E> {
        self.inner
    }

    /// The function that gives the result.
    pub closed spec fn func(self) -> F {
        self.f
    }
}

impl<E, F, T, S> Endpoint<S> for Around<E, F, T, S> where
    E: Endpoint<S>,
    F: Fn(Arc<E>, Request, S) -> Result<T, Error> + Send + Sync + 'static,
    T: IntoResponse + Send + Sync,
    S: Clone + Send + Sync + 'static,
 {
    type Output = T;

    open spec fn gives(&self, req: Request, state: S, res: Result<T, Error>) -> bool {
        exists|st: S| #[trigger]
            call_ensures(self.func(), (self.inner(), req, st), res) && cloned(state, st)
    }

    fn call(&self, req: Request, state: &S) -> (res: Result<T, Error>) {
        proof {
            use_type_invariant(self);
        }
        let ghost req0 = req;
        let ep = arc_clone(&self.inner);
        let st = state.clone();
        let ghost st0 = st;
        let res = (self.f)(ep, req, st);
        assert(call_ensures(self.func(), (self.inner(), req0, st0), res) && cloned(*state, st0));
        res
    }
}

} // verus!

use vstd::prelude::*;

use crate::endpoint::endpoint::Endpoint;
use crate::message::{extensions_insert, Error, Request};
use crate::middleware::Middleware;

verus! {

/// Middleware that adds a value to each request's extensions.
pub struct AddData<T> {
    value: T,
}

impl<T: Clone + Send + Sync + 'static> AddData<T> {
    /// Creates a new `AddData` middleware with any value.
    pub fn new(value: T) -> (a: Self)
        ensures
            a.value() == value,
    {
        AddData { value }
    }
}

impl<T> AddData<T> {
    /// The value that is added.
    pub closed spec fn value(self) -> T {
        self.value
    }
}

impl<E, T, S> Middleware<E, S> for AddData<T> where
    E: Endpoint<S>,
    T: Clone + Send + Sync + 'static,
    S: Send + Sync,
 {
    type Output = AddDataEndpoint<E, T>;

    open spec fn transforms(&self, ep: E, out: AddDataEndpoint<E, T>) -> bool {
        out.inner() == ep && cloned(self.value(), out.value())
    }

    fn transform(&self, ep: E) -> (out: AddDataEndpoint<E, T>) {
        AddDataEndpoint { inner: ep, value: self.value.clone() }
    }
}

/// Endpoint for the `AddData` middleware.
pub struct AddDataEndpoint<E, T> {
    inner: E,
    value: T,
}

impl<E, T> AddDataEndpoint<E, T> {
    /// The wrapped endpoint.
    pub closed spec fn inner(self) -> E {
        self.inner
    }

    /// The value that is added.
    pub closed spec fn value(self) -> T {
        self.value
    }
}

impl<E, T, S> Endpoint<S> for AddDataEndpoint<E, T> where
    E: Endpoint<S>,
    T: Clone + Send + Sync + 'static,
    S: Send + Sync,
 {
    type Output = E::Output;

    /// The inner endpoint's result for the request with the value added to its
    /// extensions, and the same state.
    open spec fn gives(&self, req: Request, state: S, res: Result<E::Output, Error>) -> bool {
        exists|req2: Request| #[trigger]
            self.inner().gives(req2, state, res) && req2.same_but_extensions(req)
    }

    fn call(&self, req: Request, state: &S) -> (res: Result<E::Output, Error>) {
        let mut req = req;
        let ghost req0 = req;
        extensions_insert(&mut req.extensions, self.value.clone());
        let ghost req2 = req;
        let res = self.inner.call(req, state);
        assert(self.inner().gives(req2, *state, res) && req2.same_but_extensions(req0));
        res
    }
}

} // verus!

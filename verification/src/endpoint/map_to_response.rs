use std::marker::PhantomData;

use vstd::prelude::*;

use crate::endpoint::endpoint::Endpoint;
use crate::message::{map_into_response, maps_to_response, Error, Request, Response};

verus! {

/// Endpoint for the [`map_to_response`](super::EndpointExt::map_to_response)
/// method: turns the inner endpoint's output into a response and passes its
/// error on.
pub struct MapToResponse<E, S = ()> {
    inner: E,
    _mark: PhantomData<S>,
}

impl<E, S> MapToResponse<E, S> {
    /// Creates the endpoint.
    pub fn new(inner: E) -> (m: MapToResponse<E, S>)
        ensures
            m.inner() == inner,
    {
        Self { inner, _mark: PhantomData }
    }

    /// The wrapped endpoint.
    pub closed spec fn inner(self) -> E {
        self.inner
    }
}

impl<E: Endpoint<S>, S: Send + Sync> Endpoint<S> for MapToResponse<E, S> {
    type Output = Response;

    open spec fn gives(&self, req: Request, state: S, res: Result<Response, Error>) -> bool {
        exists|r: Result<E::Output, Error>| #[trigger]
            self.inner().gives(req, state, r) && maps_to_response(r, res)
    }

    fn call(&self, req: Request, state: &S) -> (res: Result<Response, Error>) {
        let ghost req0 = req;
        let r = self.inner.call(req, state);
        let ghost r0 = r;
        let res = map_into_response(r);
        assert(self.inner().gives(req0, *state, r0) && maps_to_response(r0, res));
        res
    }
}

} // verus!

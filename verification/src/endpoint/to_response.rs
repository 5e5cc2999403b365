use std::marker::PhantomData;

use vstd::prelude::*;

use crate::endpoint::endpoint::Endpoint;
use crate::message::{result_response, Error, IntoResponse, Request, Response};

verus! {

/// Endpoint for the [`to_response`](super::EndpointExt::to_response) method:
/// turns the inner endpoint's output, or its error, into a response.
pub struct ToResponse<E, S = ()> {
    inner: E,
    _mark: PhantomData<S>,
}

impl<E, S> ToResponse<E, S> {
    /// Creates the endpoint.
    pub fn new(inner: E) -> (t: ToResponse<E, S>)
        ensures
            t.inner() == inner,
    {
        Self { inner, _mark: PhantomData }
    }

    /// The wrapped endpoint.
    pub closed spec fn inner(self) -> E {
        self.inner
    }
}

impl<E: Endpoint<S>, S: Send + Sync> Endpoint<S> for ToResponse<E, S> {
    type Output = Response;

    open spec fn gives(&self, req: Request, state: S, res: Result<Response, Error>) -> bool {
        exists|r: Result<E::Output, Error>| #[trigger]
            self.inner().gives(req, state, r) && (res matches Ok(resp) && resp@ == result_response(r))
    }

    fn call(&self, req: Request, state: &S) -> (res: Result<Response, Error>) {
        let ghost req0 = req;
        let r = self.inner.call(req, state);
        let ghost r0 = r;
        let resp = match r {
            Ok(output) => output.into_response(),
            Err(err) => err.into_response(),
        };
        assert(self.inner().gives(req0, *state, r0) && resp@ == result_response(r0));
        Ok(resp)
    }
}

} // verus!

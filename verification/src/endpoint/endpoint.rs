//! The endpoint trait, endpoints made from functions, and the combinators
//! that extend any endpoint.

use std::marker::PhantomData;
use std::sync::Arc;

use vstd::prelude::*;

use crate::endpoint::{
    After, AndThen, Around, Before, CatchAllError, CatchError, InspectAllError, InspectError,
    MapEndpoint, MapToResponse, ToResponse,
};
use crate::message::{
    extensions_insert, map_into_response, maps_to_response, result_response, Error, ErrorType,
    IntoResponse, IntoResult, Request, Response,
};
use crate::middleware::{AddData, AddDataEndpoint, Middleware};
use crate::web::state::StateData;

verus! {

/// An HTTP request handler.
///
/// The type parameter `S` is the state that the endpoint receives with each
/// request. `gives` says which results the endpoint may return for a request
/// and a state; `call` returns one of them.
pub trait Endpoint<S = ()>: Send + Sync {
    /// The output of the endpoint.
    type Output: IntoResponse;

    /// `res` is a result that this endpoint may return for `req` and `state`;
    /// by default, any result.
    open spec fn gives(&self, req: Request, state: S, res: Result<Self::Output, Error>) -> bool {
        true
    }

    /// Gets the result for the request.
    fn call(&self, req: Request, state: &S) -> (res: Result<Self::Output, Error>)
        ensures
            self.gives(req, *state, res),
    ;

    /// Gets the response to the request, with the default state; an error
    /// becomes a response too.
    fn get_response(&self, req: Request) -> (resp: Response)
        where S: Default
        ensures
            exists|st: S, r: Result<Self::Output, Error>| #[trigger]
                call_ensures(S::default, (), st) && #[trigger] self.gives(req, st, r) && resp@
                    == result_response(r),
    {
        let st = S::default();
        let ghost req0 = req;
        let r = self.call(req, &st);
        let ghost r0 = r;
        let resp = match r {
            Ok(v) => v.into_response(),
            Err(e) => e.into_response(),
        };
        assert(call_ensures(S::default, (), st) && self.gives(req0, st, r0) && resp@ == result_response(r0));
        resp
    }
}

/// An endpoint that calls a function.
#[verifier::reject_recursive_types(R)]
pub struct SyncFnEndpoint<T, R, F: Fn(Request) -> R> {
    _mark: PhantomData<(T, R)>,
    f: F,
}

impl<T, R, F: Fn(Request) -> R> SyncFnEndpoint<T, R, F> {
    /// The function may be called on any request.
    #[verifier::type_invariant]
    spec fn callable(self) -> bool {
        forall|req: Request| call_requires(self.f, (req,))
    }

    /// The function that this endpoint calls.
    pub closed spec fn func(self) -> F {
        self.f
    }
}

impl<T, R, F> Endpoint for SyncFnEndpoint<T, R, F> where
    F: Fn(Request) -> R + Send + Sync,
    T: IntoResponse + Send + Sync,
    R: IntoResult<T> + Send + Sync,
 {
    type Output = T;

    open spec fn gives(&self, req: Request, state: (), res: Result<T, Error>) -> bool {
        exists|r: R| #[trigger] call_ensures(self.func(), (req,), r) && res == r.spec_into_result()
    }

    fn call(&self, req: Request, state: &()) -> (res: Result<T, Error>) {
        proof {
            use_type_invariant(self);
        }
        let ghost req0 = req;
        let r = (self.f)(req);
        let ghost r0 = r;
        let res = r.into_result();
        assert(call_ensures(self.func(), (req0,), r0) && res == r0.spec_into_result());
        res
    }
}

/// Creates an endpoint from a function.
///
/// The output of the function can be any type that implements [`IntoResult`].
pub fn make_sync<F, T, R>(f: F) -> (ep: SyncFnEndpoint<T, R, F>) where
    F: Fn(Request) -> R + Send + Sync,
    T: IntoResponse + Send + Sync,
    R: IntoResult<T> + Send + Sync,

    requires
        forall|req: Request| call_requires(f, (req,)),
    ensures
        ep.func() == f,
{
    SyncFnEndpoint { _mark: PhantomData, f }
}

/// Creates an endpoint from a function whose result is ready when it returns.
///
/// Every function runs to completion here, so this endpoint is the one that
/// [`make_sync`] builds.
pub fn make<F, T, R>(f: F) -> (ep: SyncFnEndpoint<T, R, F>) where
    F: Fn(Request) -> R + Send + Sync,
    T: IntoResponse + Send + Sync,
    R: IntoResult<T> + Send + Sync,

    requires
        forall|req: Request| call_requires(f, (req,)),
    ensures
        ep.func() == f,
{
    make_sync(f)
}

/// One of two endpoints.
pub enum EitherEndpoint<A, B> {
    /// An endpoint of type `A`.
    A(A),
    /// An endpoint of type `B`.
    B(B),
}

impl<S: Send + Sync, A: Endpoint<S>, B: Endpoint<S>> Endpoint<S> for EitherEndpoint<A, B> {
    type Output = Response;

    open spec fn gives(&self, req: Request, state: S, res: Result<Response, Error>) -> bool {
        match self {
            EitherEndpoint::A(a) => exists|r: Result<A::Output, Error>| #[trigger]
                a.gives(req, state, r) && maps_to_response(r, res),
            EitherEndpoint::B(b) => exists|r: Result<B::Output, Error>| #[trigger]
                b.gives(req, state, r) && maps_to_response(r, res),
        }
    }

    fn call(&self, req: Request, state: &S) -> (res: Result<Response, Error>) {
        let ghost req0 = req;
        match self {
            EitherEndpoint::A(a) => {
                let r = a.call(req, state);
                let ghost r0 = r;
                let res = map_into_response(r);
                assert(a.gives(req0, *state, r0) && maps_to_response(r0, res));
                res
            },
            EitherEndpoint::B(b) => {
                let r = b.call(req, state);
                let ghost r0 = r;
                let res = map_into_response(r);
                assert(b.gives(req0, *state, r0) && maps_to_response(r0, res));
                res
            },
        }
    }
}

impl<'a, S: Send + Sync, T: Endpoint<S> + ?Sized> Endpoint<S> for &'a T {
    type Output = T::Output;

    open spec fn gives(&self, req: Request, state: S, res: Result<T::Output, Error>) -> bool {
        (**self).gives(req, state, res)
    }

    fn call(&self, req: Request, state: &S) -> (res: Result<T::Output, Error>) {
        (**self).call(req, state)
    }
}

impl<S: Send + Sync, T: Endpoint<S> + ?Sized> Endpoint<S> for Box<T> {
    type Output = T::Output;

    open spec fn gives(&self, req: Request, state: S, res: Result<T::Output, Error>) -> bool {
        (**self).gives(req, state, res)
    }

    fn call(&self, req: Request, state: &S) -> (res: Result<T::Output, Error>) {
        (**self).call(req, state)
    }
}

impl<S: Send + Sync, T: Endpoint<S> + ?Sized> Endpoint<S> for Arc<T> {
    type Output = T::Output;

    open spec fn gives(&self, req: Request, state: S, res: Result<T::Output, Error>) -> bool {
        (**self).gives(req, state, res)
    }

    fn call(&self, req: Request, state: &S) -> (res: Result<T::Output, Error>) {
        (**self).call(req, state)
    }
}

/// An endpoint that can be dynamically dispatched; `T` is its output.
pub trait DynEndpoint<S = (), T = Response>: Send + Sync {
    /// `res` is a result that this endpoint may return for `req` and `state`;
    /// by default, any result.
    open spec fn dyn_gives(&self, req: Request, state: S, res: Result<T, Error>) -> bool {
        true
    }

    /// Gets the result for the request.
    fn call(&self, req: Request, state: &S) -> (res: Result<T, Error>)
        ensures
            self.dyn_gives(req, *state, res),
    ;
}

/// An [`Endpoint`] wrapper used to implement [`DynEndpoint`].
pub struct ToDynEndpoint<E>(pub E);

impl<S: Send + Sync, E: Endpoint<S>> DynEndpoint<S, E::Output> for ToDynEndpoint<E> {
    open spec fn dyn_gives(&self, req: Request, state: S, res: Result<E::Output, Error>) -> bool {
        self.0.gives(req, state, res)
    }

    fn call(&self, req: Request, state: &S) -> (res: Result<E::Output, Error>) {
        self.0.call(req, state)
    }
}

impl<'a, S: Send + Sync, T: IntoResponse> Endpoint<S> for dyn DynEndpoint<S, T> + 'a {
    type Output = T;

    open spec fn gives(&self, req: Request, state: S, res: Result<T, Error>) -> bool {
        self.dyn_gives(req, state, res)
    }

    fn call(&self, req: Request, state: &S) -> (res: Result<T, Error>) {
        DynEndpoint::call(self, req, state)
    }
}

/// An owned dynamically typed endpoint.
pub type BoxEndpoint<'a, S = (), T = Response> = Box<dyn DynEndpoint<S, T> + 'a>;

/// Endpoint that provides its state to an inner endpoint.
///
/// `WithState<E, S>` wraps an `Endpoint<S>` and is an `Endpoint<()>`: the
/// state is captured, stored in each request's extensions as [`StateData`],
/// and handed to the inner endpoint on each call.
pub struct WithState<E, S> {
    inner: E,
    state: S,
}

impl<E, S> WithState<E, S> {
    /// Creates a new `WithState` endpoint.
    pub fn new(inner: E, state: S) -> (w: Self)
        ensures
            w.inner() == inner,
            w.state() == state,
    {
        Self { inner, state }
    }

    /// The wrapped endpoint.
    pub closed spec fn inner(self) -> E {
        self.inner
    }

    /// The captured state.
    pub closed spec fn state(self) -> S {
        self.state
    }
}

impl<E, S> Endpoint<()> for WithState<E, S> where
    E: Endpoint<S>,
    S: Clone + Send + Sync + 'static,
 {
    type Output = E::Output;

    open spec fn gives(&self, req: Request, state: (), res: Result<E::Output, Error>) -> bool {
        exists|req2: Request| #[trigger]
            self.inner().gives(req2, self.state(), res) && req2.same_but_extensions(req)
    }

    fn call(&self, req: Request, _state: &()) -> (res: Result<E::Output, Error>) {
        let mut req = req;
        let ghost req0 = req;
        extensions_insert(&mut req.extensions, StateData(self.state.clone()));
        let ghost req2 = req;
        let res = self.inner.call(req, &self.state);
        assert(self.inner().gives(req2, self.state(), res) && req2.same_but_extensions(req0));
        res
    }
}

/// Extension methods for every value that converts into an endpoint.
pub trait EndpointExt<S = ()>: IntoEndpoint<S> + Sized {
    /// Wraps the endpoint in a box, to be dispatched dynamically.
    ///
    /// No clause states what the boxed endpoint gives: Verus refuses a
    /// `requires` or `ensures` on a function whose result type holds a trait
    /// object, so the contract of the box's `call` is only that of
    /// [`DynEndpoint`].
    fn boxed<'a>(self) -> BoxEndpoint<'a, S, <Self::Endpoint as Endpoint<S>>::Output>
        where S: Send + Sync + 'static, Self: 'a
    {
        Box::new(ToDynEndpoint(self.into_endpoint()))
    }

    /// Uses a middleware to transform this endpoint.
    fn with<T>(self, middleware: T) -> (out: T::Output)
        where T: Middleware<Self::Endpoint, S>
        ensures
            middleware.transforms(self.spec_into_endpoint(), out),
    {
        middleware.transform(self.into_endpoint())
    }

    /// If `enable` is `true`, uses the middleware to transform this endpoint;
    /// otherwise keeps it as it is.
    fn with_if<T>(self, enable: bool, middleware: T) -> (out: EitherEndpoint<Self, T::Output>)
        where T: Middleware<Self::Endpoint, S>
        ensures
            !enable ==> out == EitherEndpoint::<Self, T::Output>::A(self),
            enable ==> (out matches EitherEndpoint::B(m) && middleware.transforms(
                self.spec_into_endpoint(),
                m,
            )),
    {
        if !enable {
            EitherEndpoint::A(self)
        } else {
            EitherEndpoint::B(middleware.transform(self.into_endpoint()))
        }
    }

    /// Attaches a value to each request, as `with(AddData::new(data))`.
    fn data<T>(self, data: T) -> (out: AddDataEndpoint<Self::Endpoint, T>)
        where T: Clone + Send + Sync + 'static, S: Send + Sync
        ensures
            out.inner() == self.spec_into_endpoint(),
            cloned(data, out.value()),
    {
        self.with(AddData::new(data))
    }

    /// If `data` is `Some`, attaches its value to each request; otherwise
    /// keeps this endpoint as it is.
    fn data_opt<T>(self, data: Option<T>) -> (out: EitherEndpoint<AddDataEndpoint<Self::Endpoint, T>, Self>)
        where T: Clone + Send + Sync + 'static, S: Send + Sync
        ensures
            data matches Some(v) ==> (out matches EitherEndpoint::A(a) && a.inner()
                == self.spec_into_endpoint() && cloned(v, a.value())),
            data is None ==> out == EitherEndpoint::<AddDataEndpoint<Self::Endpoint, T>, Self>::B(self),
    {
        match data {
            Some(data) => EitherEndpoint::A(AddData::new(data).transform(self.into_endpoint())),
            None => EitherEndpoint::B(self),
        }
    }

    /// Provides the state for this endpoint, which becomes an `Endpoint<()>`.
    fn with_state<T>(self, state: T) -> (out: WithState<Self::Endpoint, T>)
        where T: Clone + Send + Sync + 'static
        ensures
            out.inner() == self.spec_into_endpoint(),
            out.state() == state,
    {
        WithState::new(self.into_endpoint(), state)
    }

    /// Maps the request of this endpoint.
    fn before<F>(self, f: F) -> (out: Before<Self, F, S>)
        where F: Fn(Request) -> Result<Request, Error> + Send + Sync
        requires
            forall|req: Request| call_requires(f, (req,)),
        ensures
            out.inner() == self,
            out.func() == f,
    {
        Before::new(self, f)
    }

    /// Maps the result of this endpoint.
    fn after<F, T>(self, f: F) -> (out: After<Self::Endpoint, F, T, S>)
        where
            F: Fn(Result<<Self::Endpoint as Endpoint<S>>::Output, Error>) -> Result<T, Error> + Send + Sync,
            T: IntoResponse,
        requires
            forall|r: Result<<Self::Endpoint as Endpoint<S>>::Output, Error>| call_requires(f, (r,)),
        ensures
            out.inner() == self.spec_into_endpoint(),
            out.func() == f,
    {
        After::new(self.into_endpoint(), f)
    }

    /// Maps the request and the result of this endpoint.
    fn around<F, R>(self, f: F) -> (out: Around<Self::Endpoint, F, R, S>)
        where
            F: Fn(Arc<Self::Endpoint>, Request, S) -> Result<R, Error> + Send + Sync + 'static,
            R: IntoResponse,
            S: Clone + Send + Sync + 'static,
        requires
            forall|ep: Arc<Self::Endpoint>, req: Request, st: S| call_requires(f, (ep, req, st)),
        ensures
            *out.inner() == self.spec_into_endpoint(),
            out.func() == f,
    {
        Around::new(self.into_endpoint(), f)
    }

    /// Converts the output of this endpoint into a response; errors stay errors.
    fn map_to_response(self) -> (out: MapToResponse<Self::Endpoint, S>)
        ensures
            out.inner() == self.spec_into_endpoint(),
    {
        MapToResponse::new(self.into_endpoint())
    }

    /// Converts the output of this endpoint, and its errors, into a response.
    fn to_response(self) -> (out: ToResponse<Self::Endpoint, S>)
        ensures
            out.inner() == self.spec_into_endpoint(),
    {
        ToResponse::new(self.into_endpoint())
    }

    /// Maps the output of this endpoint.
    fn map<F, R2>(self, f: F) -> (out: MapEndpoint<Self::Endpoint, F, R2, S>)
        where
            F: Fn(<Self::Endpoint as Endpoint<S>>::Output) -> R2 + Send + Sync,
            R2: IntoResponse,
        requires
            forall|o: <Self::Endpoint as Endpoint<S>>::Output| call_requires(f, (o,)),
        ensures
            out.inner() == self.spec_into_endpoint(),
            out.func() == f,
    {
        MapEndpoint::new(self.into_endpoint(), f)
    }

    /// Calls `f` if the result is `Ok`, otherwise returns the `Err` value.
    fn and_then<F, R2>(self, f: F) -> (out: AndThen<Self::Endpoint, F, R2, S>)
        where
            F: Fn(<Self::Endpoint as Endpoint<S>>::Output) -> Result<R2, Error> + Send + Sync,
            R2: IntoResponse,
        requires
            forall|o: <Self::Endpoint as Endpoint<S>>::Output| call_requires(f, (o,)),
        ensures
            out.inner() == self.spec_into_endpoint(),
            out.func() == f,
    {
        AndThen::new(self.into_endpoint(), f)
    }

    /// Catches all errors and converts them into a response.
    fn catch_all_error<F, R>(self, f: F) -> (out: CatchAllError<Self, F, R, S>)
        where F: Fn(Error) -> R + Send + Sync, R: IntoResponse + Send
        requires
            forall|e: Error| call_requires(f, (e,)),
        ensures
            out.inner() == self,
            out.func() == f,
    {
        CatchAllError::new(self, f)
    }

    /// Catches the errors of type `ErrType` and converts them into a response.
    fn catch_error<F, R, ErrType>(self, f: F) -> (out: CatchError<Self, F, R, ErrType, S>)
        where F: Fn(ErrType) -> R + Send + Sync, R: IntoResponse + Send + Sync, ErrType: ErrorType
        requires
            forall|e: ErrType| call_requires(f, (e,)),
        ensures
            out.inner() == self,
            out.func() == f,
    {
        CatchError::new(self, f)
    }

    /// Does something with each error.
    fn inspect_all_err<F>(self, f: F) -> (out: InspectAllError<Self, F, S>)
        where F: Fn(&Error) + Send + Sync
        requires
            forall|e: Error| call_requires(f, (&e,)),
        ensures
            out.inner() == self,
            out.func() == f,
    {
        InspectAllError::new(self, f)
    }

    /// Does something with each error of type `ErrType`.
    fn inspect_err<F, ErrType>(self, f: F) -> (out: InspectError<Self, F, ErrType, S>)
        where F: Fn(&ErrType) + Send + Sync, ErrType: ErrorType
        requires
            forall|e: ErrType| call_requires(f, (&e,)),
        ensures
            out.inner() == self,
            out.func() == f,
    {
        InspectError::new(self, f)
    }
}

impl<S, T: IntoEndpoint<S>> EndpointExt<S> for T {}

/// Represents a type that can convert into an endpoint.
pub trait IntoEndpoint<S = ()>: Sized {
    /// The endpoint type.
    type Endpoint: Endpoint<S>;

    /// The endpoint that this value becomes; by default, one that is not known.
    open spec fn spec_into_endpoint(self) -> Self::Endpoint {
        arbitrary()
    }

    /// Converts this value into an endpoint.
    fn into_endpoint(self) -> (ep: Self::Endpoint)
        ensures
            ep == self.spec_into_endpoint(),
    ;
}

impl<S, T: Endpoint<S>> IntoEndpoint<S> for T {
    type Endpoint = T;

    open spec fn spec_into_endpoint(self) -> T {
        self
    }

    fn into_endpoint(self) -> (ep: T) {
        self
    }
}

} // verus!

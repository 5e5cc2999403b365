use std::marker::PhantomData;

use vstd::prelude::*;

use crate::endpoint::endpoint::{Endpoint, IntoEndpoint};
use crate::message::{
    map_into_response, maps_to_response, Error, ErrorReason, Method, MethodNotAllowedError, Request,
    Response, STATUS_METHOD_NOT_ALLOWED,
};

verus! {

/// A table of endpoints, each registered for a method, in the order of
/// registration.
pub trait MethodRoutes<S>: Send + Sync {
    /// The methods of the entries, in the order they were registered.
    spec fn methods(&self) -> Seq<Method>;

    /// `res` is a result that the last entry registered for the request's
    /// method may give, turned into a response.
    spec fn handles(&self, req: Request, state: S, res: Result<Response, Error>) -> bool;

    /// Calls the last entry registered for the request's method, which
    /// replaces any earlier one; hands the request back where no entry is
    /// registered for it.
    fn dispatch(&self, req: Request, state: &S) -> (res: Result<Result<Response, Error>, Request>)
        ensures
            self.methods().contains(req.method) ==> (res matches Ok(r) && self.handles(req, *state, r)),
            !self.methods().contains(req.method) ==> res == Err::<Result<Response, Error>, Request>(req),
    ;
}

/// The empty table.
pub struct NoMethods;

impl<S> MethodRoutes<S> for NoMethods {
    open spec fn methods(&self) -> Seq<Method> {
        Seq::empty()
    }

    open spec fn handles(&self, req: Request, state: S, res: Result<Response, Error>) -> bool {
        false
    }

    fn dispatch(&self, req: Request, state: &S) -> (res: Result<Result<Response, Error>, Request>) {
        Err(req)
    }
}

/// A table: the entries of `prev`, then `ep` registered for `method`.
pub struct MethodEntry<E, P> {
    prev: P,
    method: Method,
    ep: E,
}

impl<E, P> MethodEntry<E, P> {
    /// The entries registered before this one.
    pub closed spec fn prev(self) -> P {
        self.prev
    }

    /// The method of this entry.
    pub closed spec fn method(self) -> Method {
        self.method
    }

    /// The endpoint of this entry.
    pub closed spec fn endpoint(self) -> E {
        self.ep
    }
}

impl<S, E, P> MethodRoutes<S> for MethodEntry<E, P> where
    S: Send + Sync,
    E: Endpoint<S>,
    P: MethodRoutes<S>,
 {
    open spec fn methods(&self) -> Seq<Method> {
        self.prev().methods().push(self.method())
    }

    open spec fn handles(&self, req: Request, state: S, res: Result<Response, Error>) -> bool {
        if req.method == self.method() {
            exists|r: Result<E::Output, Error>| #[trigger]
                self.endpoint().gives(req, state, r) && maps_to_response(r, res)
        } else {
            self.prev().handles(req, state, res)
        }
    }

    fn dispatch(&self, req: Request, state: &S) -> (res: Result<Result<Response, Error>, Request>) {
        let ghost ms = self.prev().methods();
        let ghost m = req.method;
        proof {
            assert(self.methods()[ms.len() as int] == self.method());
            assert forall|i: int| 0 <= i < ms.len() implies self.methods()[i] == ms[i] by {}
        }
        if req.method == self.method {
            let ghost req0 = req;
            let r = self.ep.call(req, state);
            let ghost r0 = r;
            let res = map_into_response(r);
            assert(self.endpoint().gives(req0, *state, r0) && maps_to_response(r0, res));
            Ok(res)
        } else {
            proof {
                if self.methods().contains(m) {
                    let i = choose|i: int| 0 <= i < self.methods().len() && self.methods()[i] == m;
                    assert(i < ms.len());
                    assert(ms[i] == m);
                }
                if ms.contains(m) {
                    let i = choose|i: int| 0 <= i < ms.len() && ms[i] == m;
                    assert(self.methods()[i] == m);
                }
            }
            self.prev.dispatch(req, state)
        }
    }
}

/// `after` is `before` with `ep` set for `method`: a request with that
/// method goes to `ep`, replacing any endpoint registered earlier for it, and
/// every other request is handled as `before` handles it.
pub open spec fn sets_endpoint<S, E: Endpoint<S>, P: MethodRoutes<S>>(
    before: P,
    after: MethodEntry<E, P>,
    method: Method,
    ep: E,
) -> bool where S: Send + Sync {
    &&& after.methods() == before.methods().push(method)
    &&& forall|req: Request, st: S, res: Result<Response, Error>| #[trigger]
        after.handles(req, st, res) <==> if req.method == method {
            exists|r: Result<E::Output, Error>| #[trigger] ep.gives(req, st, r) && maps_to_response(r, res)
        } else {
            before.handles(req, st, res)
        }
}

/// `e` is the error of a request whose method has no endpoint.
pub open spec fn is_method_not_allowed(e: Error) -> bool {
    &&& e.status == STATUS_METHOD_NOT_ALLOWED
    &&& e.reason == ErrorReason::MethodNotAllowed
    &&& e.message@ == "method not allowed"@
}

/// `req` with its method replaced by `GET`.
pub open spec fn as_get(req: Request) -> Request {
    Request { method: Method::GET, ..req }
}

/// `res` is `r` with the body of its response emptied; an error is kept.
pub open spec fn without_body(r: Result<Response, Error>, res: Result<Response, Error>) -> bool {
    match r {
        Ok(resp) => res matches Ok(resp2) && resp2.status == resp.status && resp2.headers
            == resp.headers && resp2.body@.len() == 0,
        Err(e) => res == Err::<Response, Error>(e),
    }
}

/// Routing by HTTP method.
///
/// A request goes to the endpoint registered for its method; registering a
/// method again replaces its endpoint. A `HEAD`
/// request with no endpoint of its own goes to the `GET` endpoint, and the
/// body of the response is dropped. Any other request fails with
/// [`MethodNotAllowedError`].
pub struct RouteMethod<S = (), R = NoMethods> {
    routes: R,
    _marker: PhantomData<S>,
}

impl<S> RouteMethod<S, NoMethods> where S: Clone + Send + Sync + 'static {
    /// Creates a `RouteMethod` with no endpoint.
    pub fn new() -> (r: Self)
        ensures
            r.routes() == NoMethods,
    {
        RouteMethod { routes: NoMethods, _marker: PhantomData }
    }
}

impl<S> Default for RouteMethod<S, NoMethods> where S: Clone + Send + Sync + 'static {
    fn default() -> (r: Self)
        ensures
            r.routes() == NoMethods,
    {
        Self::new()
    }
}

impl<S, R> RouteMethod<S, R> {
    /// The table of endpoints.
    pub closed spec fn routes(self) -> R {
        self.routes
    }
}

impl<S, R> RouteMethod<S, R> where S: Clone + Send + Sync + 'static, R: MethodRoutes<S> {
    /// Sets the endpoint for the specified `method`.
    pub fn method<E>(self, method: Method, ep: E) -> (r: RouteMethod<S, MethodEntry<E::Endpoint, R>>)
        where E: IntoEndpoint<S>, E::Endpoint: 'static
        ensures
            r.routes().prev() == self.routes(),
            r.routes().method() == method,
            r.routes().endpoint() == ep.spec_into_endpoint(),
            sets_endpoint::<S, E::Endpoint, R>(self.routes(), r.routes(), method, ep.spec_into_endpoint()),
    {
        let r = RouteMethod {
            routes: MethodEntry { prev: self.routes, method, ep: ep.into_endpoint() },
            _marker: PhantomData,
        };
        proof {
            let after = r.routes();
            assert forall|req: Request, st: S, res: Result<Response, Error>| #[trigger]
                after.handles(req, st, res) <==> if req.method == method {
                    exists|x: Result<<E::Endpoint as Endpoint<S>>::Output, Error>| #[trigger]
                        ep.spec_into_endpoint().gives(req, st, x) && maps_to_response(x, res)
                } else {
                    self.routes().handles(req, st, res)
                } by {
                assert(after.endpoint() == ep.spec_into_endpoint());
                assert(after.method() == method);
                assert(after.prev() == self.routes());
            }
        }
        r
    }

    /// Sets the endpoint for `GET`.
    pub fn get<E>(self, ep: E) -> (r: RouteMethod<S, MethodEntry<E::Endpoint, R>>)
        where E: IntoEndpoint<S>, E::Endpoint: 'static
        ensures
            r.routes().prev() == self.routes(),
            r.routes().method() == Method::GET,
            r.routes().endpoint() == ep.spec_into_endpoint(),
            sets_endpoint::<S, E::Endpoint, R>(self.routes(), r.routes(), Method::GET, ep.spec_into_endpoint()),
    {
        self.method(Method::GET, ep)
    }

    /// Sets the endpoint for `POST`.
    pub fn post<E>(self, ep: E) -> (r: RouteMethod<S, MethodEntry<E::Endpoint, R>>)
        where E: IntoEndpoint<S>, E::Endpoint: 'static
        ensures
            r.routes().prev() == self.routes(),
            r.routes().method() == Method::POST,
            r.routes().endpoint() == ep.spec_into_endpoint(),
            sets_endpoint::<S, E::Endpoint, R>(self.routes(), r.routes(), Method::POST, ep.spec_into_endpoint()),
    {
        self.method(Method::POST, ep)
    }

    /// Sets the endpoint for `PUT`.
    pub fn put<E>(self, ep: E) -> (r: RouteMethod<S, MethodEntry<E::Endpoint, R>>)
        where E: IntoEndpoint<S>, E::Endpoint: 'static
        ensures
            r.routes().prev() == self.routes(),
            r.routes().method() == Method::PUT,
            r.routes().endpoint() == ep.spec_into_endpoint(),
            sets_endpoint::<S, E::Endpoint, R>(self.routes(), r.routes(), Method::PUT, ep.spec_into_endpoint()),
    {
        self.method(Method::PUT, ep)
    }

    /// Sets the endpoint for `DELETE`.
    pub fn delete<E>(self, ep: E) -> (r: RouteMethod<S, MethodEntry<E::Endpoint, R>>)
        where E: IntoEndpoint<S>, E::Endpoint: 'static
        ensures
            r.routes().prev() == self.routes(),
            r.routes().method() == Method::DELETE,
            r.routes().endpoint() == ep.spec_into_endpoint(),
            sets_endpoint::<S, E::Endpoint, R>(self.routes(), r.routes(), Method::DELETE, ep.spec_into_endpoint()),
    {
        self.method(Method::DELETE, ep)
    }

    /// Sets the endpoint for `HEAD`.
    pub fn head<E>(self, ep: E) -> (r: RouteMethod<S, MethodEntry<E::Endpoint, R>>)
        where E: IntoEndpoint<S>, E::Endpoint: 'static
        ensures
            r.routes().prev() == self.routes(),
            r.routes().method() == Method::HEAD,
            r.routes().endpoint() == ep.spec_into_endpoint(),
            sets_endpoint::<S, E::Endpoint, R>(self.routes(), r.routes(), Method::HEAD, ep.spec_into_endpoint()),
    {
        self.method(Method::HEAD, ep)
    }

    /// Sets the endpoint for `OPTIONS`.
    pub fn options<E>(self, ep: E) -> (r: RouteMethod<S, MethodEntry<E::Endpoint, R>>)
        where E: IntoEndpoint<S>, E::Endpoint: 'static
        ensures
            r.routes().prev() == self.routes(),
            r.routes().method() == Method::OPTIONS,
            r.routes().endpoint() == ep.spec_into_endpoint(),
            sets_endpoint::<S, E::Endpoint, R>(self.routes(), r.routes(), Method::OPTIONS, ep.spec_into_endpoint()),
    {
        self.method(Method::OPTIONS, ep)
    }

    /// Sets the endpoint for `CONNECT`.
    pub fn connect<E>(self, ep: E) -> (r: RouteMethod<S, MethodEntry<E::Endpoint, R>>)
        where E: IntoEndpoint<S>, E::Endpoint: 'static
        ensures
            r.routes().prev() == self.routes(),
            r.routes().method() == Method::CONNECT,
            r.routes().endpoint() == ep.spec_into_endpoint(),
            sets_endpoint::<S, E::Endpoint, R>(self.routes(), r.routes(), Method::CONNECT, ep.spec_into_endpoint()),
    {
        self.method(Method::CONNECT, ep)
    }

    /// Sets the endpoint for `PATCH`.
    pub fn patch<E>(self, ep: E) -> (r: RouteMethod<S, MethodEntry<E::Endpoint, R>>)
        where E: IntoEndpoint<S>, E::Endpoint: 'static
        ensures
            r.routes().prev() == self.routes(),
            r.routes().method() == Method::PATCH,
            r.routes().endpoint() == ep.spec_into_endpoint(),
            sets_endpoint::<S, E::Endpoint, R>(self.routes(), r.routes(), Method::PATCH, ep.spec_into_endpoint()),
    {
        self.method(Method::PATCH, ep)
    }

    /// Sets the endpoint for `TRACE`.
    pub fn trace<E>(self, ep: E) -> (r: RouteMethod<S, MethodEntry<E::Endpoint, R>>)
        where E: IntoEndpoint<S>, E::Endpoint: 'static
        ensures
            r.routes().prev() == self.routes(),
            r.routes().method() == Method::TRACE,
            r.routes().endpoint() == ep.spec_into_endpoint(),
            sets_endpoint::<S, E::Endpoint, R>(self.routes(), r.routes(), Method::TRACE, ep.spec_into_endpoint()),
    {
        self.method(Method::TRACE, ep)
    }
}

impl<S, R> Endpoint<S> for RouteMethod<S, R> where
    S: Clone + Send + Sync + 'static,
    R: MethodRoutes<S>,
 {
    type Output = Response;

    open spec fn gives(&self, req: Request, state: S, res: Result<Response, Error>) -> bool {
        let ms = self.routes().methods();
        if ms.contains(req.method) {
            self.routes().handles(req, state, res)
        } else if req.method == Method::HEAD && ms.contains(Method::GET) {
            exists|r: Result<Response, Error>| #[trigger]
                self.routes().handles(as_get(req), state, r) && without_body(r, res)
        } else {
            res matches Err(e) && is_method_not_allowed(e)
        }
    }

    fn call(&self, req: Request, state: &S) -> (res: Result<Response, Error>) {
        let req = match self.routes.dispatch(req, state) {
            Ok(r) => return r,
            Err(req) => req,
        };
        if req.method != Method::HEAD {
            return Err(MethodNotAllowedError.into_error());
        }
        let mut req = req;
        let ghost req0 = req;
        req.set_method(Method::GET);
        assert(req == as_get(req0));
        match self.routes.dispatch(req, state) {
            Ok(r) => {
                let ghost r0 = r;
                let res = match r {
                    Ok(resp) => {
                        let mut resp = resp;
                        resp.set_body(String::new());
                        Ok(resp)
                    },
                    Err(e) => Err(e),
                };
                assert(self.routes().handles(as_get(req0), *state, r0) && without_body(r0, res));
                res
            },
            Err(_) => Err(MethodNotAllowedError.into_error()),
        }
    }
}

/// A helper function, similar to `RouteMethod::new().get(ep)`.
pub fn get<E, S>(ep: E) -> (r: RouteMethod<S, MethodEntry<E::Endpoint, NoMethods>>) where
    E: IntoEndpoint<S>,
    E::Endpoint: 'static,
    S: Clone + Send + Sync + 'static,

    ensures
        r.routes().prev() == NoMethods,
        r.routes().method() == Method::GET,
        r.routes().endpoint() == ep.spec_into_endpoint(),
{
    RouteMethod::new().get(ep)
}

/// A helper function, similar to `RouteMethod::new().post(ep)`.
pub fn post<E, S>(ep: E) -> (r: RouteMethod<S, MethodEntry<E::Endpoint, NoMethods>>) where
    E: IntoEndpoint<S>,
    E::Endpoint: 'static,
    S: Clone + Send + Sync + 'static,

    ensures
        r.routes().prev() == NoMethods,
        r.routes().method() == Method::POST,
        r.routes().endpoint() == ep.spec_into_endpoint(),
{
    RouteMethod::new().post(ep)
}

/// A helper function, similar to `RouteMethod::new().put(ep)`.
pub fn put<E, S>(ep: E) -> (r: RouteMethod<S, MethodEntry<E::Endpoint, NoMethods>>) where
    E: IntoEndpoint<S>,
    E::Endpoint: 'static,
    S: Clone + Send + Sync + 'static,

    ensures
        r.routes().prev() == NoMethods,
        r.routes().method() == Method::PUT,
        r.routes().endpoint() == ep.spec_into_endpoint(),
{
    RouteMethod::new().put(ep)
}

/// A helper function, similar to `RouteMethod::new().delete(ep)`.
pub fn delete<E, S>(ep: E) -> (r: RouteMethod<S, MethodEntry<E::Endpoint, NoMethods>>) where
    E: IntoEndpoint<S>,
    E::Endpoint: 'static,
    S: Clone + Send + Sync + 'static,

    ensures
        r.routes().prev() == NoMethods,
        r.routes().method() == Method::DELETE,
        r.routes().endpoint() == ep.spec_into_endpoint(),
{
    RouteMethod::new().delete(ep)
}

/// A helper function, similar to `RouteMethod::new().head(ep)`.
pub fn head<E, S>(ep: E) -> (r: RouteMethod<S, MethodEntry<E::Endpoint, NoMethods>>) where
    E: IntoEndpoint<S>,
    E::Endpoint: 'static,
    S: Clone + Send + Sync + 'static,

    ensures
        r.routes().prev() == NoMethods,
        r.routes().method() == Method::HEAD,
        r.routes().endpoint() == ep.spec_into_endpoint(),
{
    RouteMethod::new().head(ep)
}

/// A helper function, similar to `RouteMethod::new().options(ep)`.
pub fn options<E, S>(ep: E) -> (r: RouteMethod<S, MethodEntry<E::Endpoint, NoMethods>>) where
    E: IntoEndpoint<S>,
    E::Endpoint: 'static,
    S: Clone + Send + Sync + 'static,

    ensures
        r.routes().prev() == NoMethods,
        r.routes().method() == Method::OPTIONS,
        r.routes().endpoint() == ep.spec_into_endpoint(),
{
    RouteMethod::new().options(ep)
}

/// A helper function, similar to `RouteMethod::new().connect(ep)`.
pub fn connect<E, S>(ep: E) -> (r: RouteMethod<S, MethodEntry<E::Endpoint, NoMethods>>) where
    E: IntoEndpoint<S>,
    E::Endpoint: 'static,
    S: Clone + Send + Sync + 'static,

    ensures
        r.routes().prev() == NoMethods,
        r.routes().method() == Method::CONNECT,
        r.routes().endpoint() == ep.spec_into_endpoint(),
{
    RouteMethod::new().connect(ep)
}

/// A helper function, similar to `RouteMethod::new().patch(ep)`.
pub fn patch<E, S>(ep: E) -> (r: RouteMethod<S, MethodEntry<E::Endpoint, NoMethods>>) where
    E: IntoEndpoint<S>,
    E::Endpoint: 'static,
    S: Clone + Send + Sync + 'static,

    ensures
        r.routes().prev() == NoMethods,
        r.routes().method() == Method::PATCH,
        r.routes().endpoint() == ep.spec_into_endpoint(),
{
    RouteMethod::new().patch(ep)
}

/// A helper function, similar to `RouteMethod::new().trace(ep)`.
pub fn trace<E, S>(ep: E) -> (r: RouteMethod<S, MethodEntry<E::Endpoint, NoMethods>>) where
    E: IntoEndpoint<S>,
    E::Endpoint: 'static,
    S: Clone + Send + Sync + 'static,

    ensures
        r.routes().prev() == NoMethods,
        r.routes().method() == Method::TRACE,
        r.routes().endpoint() == ep.spec_into_endpoint(),
{
    RouteMethod::new().trace(ep)
}

} // verus!

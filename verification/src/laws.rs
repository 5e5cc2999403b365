//! Properties that hold of every endpoint built by this crate's combinators,
//! of method routing, of the QUIC listener's TLS settings and of telling a
//! graceful HTTP/3 close.

use vstd::prelude::*;

use crate::endpoint::endpoint::{Endpoint, IntoEndpoint};
use crate::endpoint::{
    After, AndThen, Before, CatchAllError, CatchError, InspectAllError, InspectError, MapToResponse, ToResponse,
    WithState,
};
use crate::message::{
    maps_to_response, result_response, Error, ErrorType, IntoResponse, Method, Request, Response,
};
use crate::http3::{contains_text, graceful_close};
use crate::listener::quinn::{
    collect_certs, pem_certs, pem_next, settings_outcome, key_is_supported, ConfigError, KeyFormat,
    PemKind, PemStep, TlsSettings,
};
use crate::route::router_method::{
    as_get, is_method_not_allowed, without_body, MethodEntry, MethodRoutes, NoMethods, RouteMethod,
};

verus! {

/// Every endpoint converts into itself.
pub proof fn endpoint_into_itself<S, E: Endpoint<S>>(ep: E)
    ensures
        IntoEndpoint::<S>::spec_into_endpoint(ep) == ep,
{
}

/// `to_response` never fails: whatever the inner endpoint returns, its output
/// or its error, becomes the response.
pub proof fn to_response_never_fails<E: Endpoint<S>, S: Send + Sync>(
    ep: ToResponse<E, S>,
    req: Request,
    state: S,
    res: Result<Response, Error>,
)
    requires
        ep.gives(req, state, res),
    ensures
        res is Ok,
        exists|r: Result<E::Output, Error>| #[trigger]
            ep.inner().gives(req, state, r) && res->Ok_0@ == result_response(r),
{
}

/// `map_to_response` keeps errors: an error that it returns is one that the
/// inner endpoint returned.
pub proof fn map_to_response_keeps_errors<E: Endpoint<S>, S: Send + Sync>(
    ep: MapToResponse<E, S>,
    req: Request,
    state: S,
    e: Error,
)
    requires
        ep.gives(req, state, Err(e)),
    ensures
        ep.inner().gives(req, state, Err(e)),
{
}

/// `catch_all_error` never fails.
pub proof fn catch_all_error_never_fails<E, F, R, S>(
    ep: CatchAllError<E, F, R, S>,
    req: Request,
    state: S,
    res: Result<Response, Error>,
) where
    E: Endpoint<S>,
    F: Fn(Error) -> R + Send + Sync,
    R: IntoResponse + Send + Sync,
    S: Send + Sync,

    requires
        ep.gives(req, state, res),
    ensures
        res is Ok,
{
}

/// `catch_error` lets through exactly the errors that are not of the caught
/// type: an error it returns is an inner error of another type, and each
/// inner error of another type may come out unchanged.
pub proof fn catch_error_passes_other_errors<E, F, R, ErrType, S>(
    ep: CatchError<E, F, R, ErrType, S>,
    req: Request,
    state: S,
    e: Error,
) where
    E: Endpoint<S>,
    F: Fn(ErrType) -> R + Send + Sync,
    R: IntoResponse + Send + Sync,
    ErrType: ErrorType + Send + Sync + 'static,
    S: Send + Sync,

    ensures
        ep.gives(req, state, Err(e)) ==> ep.inner().gives(req, state, Err(e))
            && ErrType::spec_downcast(e) is None,
        ep.inner().gives(req, state, Err(e)) && ErrType::spec_downcast(e) is None ==> ep.gives(
            req,
            state,
            Err(e),
        ),
{
    if ep.gives(req, state, Err(e)) {
        let r = choose|r: Result<E::Output, Error>| #[trigger]
            ep.inner().gives(req, state, r) && match r {
                Ok(o) => (Err::<Response, Error>(e) matches Ok(resp) && resp@ == o.response_view()),
                Err(e2) => match ErrType::spec_downcast(e2) {
                    Some(t) => exists|h: R| #[trigger]
                        call_ensures(ep.func(), (t,), h) && (Err::<Response, Error>(e) matches Ok(
                            resp,
                        ) && resp@ == h.response_view()),
                    None => Err::<Response, Error>(e) == Err::<Response, Error>(e2),
                },
            };
        assert(r == Err::<E::Output, Error>(e));
    }
    if ep.inner().gives(req, state, Err(e)) && ErrType::spec_downcast(e) is None {
        assert(ep.inner().gives(req, state, Err::<E::Output, Error>(e)));
    }
}

/// `and_then` passes the inner endpoint's error on: where the inner endpoint
/// may return an error, `and_then` may return the same error.
pub proof fn and_then_passes_errors<E, F, R2, S>(
    ep: AndThen<E, F, R2, S>,
    req: Request,
    state: S,
    e: Error,
) where
    E: Endpoint<S>,
    F: Fn(E::Output) -> Result<R2, Error> + Send + Sync,
    R2: IntoResponse + Send + Sync,
    S: Send + Sync,

    requires
        ep.inner().gives(req, state, Err(e)),
    ensures
        ep.gives(req, state, Err(e)),
{
    assert(ep.inner().gives(req, state, Err::<E::Output, Error>(e)));
}

/// `inspect_all_err` does not change the result: what it returns, the inner
/// endpoint returned.
pub proof fn inspect_all_err_keeps_result<E, F, S>(
    ep: InspectAllError<E, F, S>,
    req: Request,
    state: S,
    res: Result<E::Output, Error>,
) where E: Endpoint<S>, F: Fn(&Error) + Send + Sync, S: Send + Sync
    requires
        ep.gives(req, state, res),
    ensures
        ep.inner().gives(req, state, res),
{
}

/// `inspect_err` does not change the result: what it returns, the inner
/// endpoint returned.
pub proof fn inspect_err_keeps_result<E, F, ErrType, S>(
    ep: InspectError<E, F, ErrType, S>,
    req: Request,
    state: S,
    res: Result<E::Output, Error>,
) where
    E: Endpoint<S>,
    F: Fn(&ErrType) + Send + Sync,
    ErrType: ErrorType + Send + Sync + 'static,
    S: Send + Sync,

    requires
        ep.gives(req, state, res),
    ensures
        ep.inner().gives(req, state, res),
{
}

/// `with_state` hands its captured state to the inner endpoint, whatever
/// state the caller passes.
pub proof fn with_state_provides_state<E, S>(
    ep: WithState<E, S>,
    req: Request,
    res: Result<E::Output, Error>,
) where E: Endpoint<S>, S: Clone + Send + Sync + 'static
    requires
        ep.gives(req, (), res),
    ensures
        exists|req2: Request| #[trigger]
            ep.inner().gives(req2, ep.state(), res) && req2.same_but_extensions(req),
{
}

/// A `RouteMethod` with no endpoint answers every request with
/// `MethodNotAllowedError`.
pub proof fn empty_route_method_not_allowed<S: Clone + Send + Sync + 'static>(
    route: RouteMethod<S, NoMethods>,
    req: Request,
    state: S,
    res: Result<Response, Error>,
)
    requires
        route.gives(req, state, res),
    ensures
        res matches Err(e) && is_method_not_allowed(e),
{
}

/// A request goes to the endpoint registered last for its method.
pub proof fn route_method_dispatches<S, E, P>(
    route: RouteMethod<S, MethodEntry<E, P>>,
    req: Request,
    state: S,
    res: Result<Response, Error>,
) where S: Clone + Send + Sync + 'static, E: Endpoint<S>, P: MethodRoutes<S>
    requires
        route.gives(req, state, res),
        req.method == route.routes().method(),
    ensures
        exists|r: Result<E::Output, Error>| #[trigger]
            route.routes().endpoint().gives(req, state, r) && maps_to_response(r, res),
{
    let ms = route.routes().methods();
    assert(ms[ms.len() - 1] == req.method);
}

/// Registering a method again replaces its endpoint: a request with that
/// method goes to the second endpoint, and the first one is never called.
pub proof fn route_method_last_wins<S, A, B, P>(
    route: RouteMethod<S, MethodEntry<B, MethodEntry<A, P>>>,
    req: Request,
    state: S,
    res: Result<Response, Error>,
) where S: Clone + Send + Sync + 'static, A: Endpoint<S>, B: Endpoint<S>, P: MethodRoutes<S>
    requires
        route.routes().prev().method() == route.routes().method(),
        route.gives(req, state, res),
        req.method == route.routes().method(),
    ensures
        exists|r: Result<B::Output, Error>| #[trigger]
            route.routes().endpoint().gives(req, state, r) && maps_to_response(r, res),
{
    let ms = route.routes().methods();
    assert(ms[ms.len() - 1] == req.method);
}

/// A table with a later entry handles a request for any other method as the
/// table without it.
pub proof fn other_methods_unchanged<S, E, P>(
    entry: MethodEntry<E, P>,
    req: Request,
    state: S,
    res: Result<Response, Error>,
) where S: Send + Sync, E: Endpoint<S>, P: MethodRoutes<S>
    requires
        req.method != entry.method(),
    ensures
        entry.handles(req, state, res) <==> entry.prev().handles(req, state, res),
        entry.methods().contains(req.method) <==> entry.prev().methods().contains(req.method),
{
    let ms = entry.prev().methods();
    assert(entry.methods()[ms.len() as int] == entry.method());
    if entry.methods().contains(req.method) {
        let i = choose|i: int| 0 <= i < entry.methods().len() && entry.methods()[i] == req.method;
        assert(ms[i] == req.method);
    }
    if ms.contains(req.method) {
        let i = choose|i: int| 0 <= i < ms.len() && ms[i] == req.method;
        assert(entry.methods()[i] == req.method);
    }
}

/// A `RouteMethod` with a `GET` endpoint and a `POST` endpoint sends `GET`
/// requests to the first, `POST` requests to the second, `HEAD` requests to
/// the first with the body dropped, and fails every other request with
/// `MethodNotAllowedError`.
pub proof fn get_post_routing<S, A, B>(
    route: RouteMethod<S, MethodEntry<B, MethodEntry<A, NoMethods>>>,
    req: Request,
    state: S,
    res: Result<Response, Error>,
) where S: Clone + Send + Sync + 'static, A: Endpoint<S>, B: Endpoint<S>
    requires
        route.routes().prev().method() == Method::GET,
        route.routes().method() == Method::POST,
        route.gives(req, state, res),
    ensures
        req.method == Method::GET ==> exists|r: Result<A::Output, Error>| #[trigger]
            route.routes().prev().endpoint().gives(req, state, r) && maps_to_response(r, res),
        req.method == Method::POST ==> exists|r: Result<B::Output, Error>| #[trigger]
            route.routes().endpoint().gives(req, state, r) && maps_to_response(r, res),
        req.method == Method::HEAD ==> exists|r: Result<A::Output, Error>, r2: Result<Response, Error>|
            #[trigger] route.routes().prev().endpoint().gives(as_get(req), state, r)
                && #[trigger] maps_to_response(r, r2) && without_body(r2, res),
        req.method != Method::GET && req.method != Method::POST && req.method != Method::HEAD
            ==> (res matches Err(e) && is_method_not_allowed(e)),
{
    let first = route.routes().prev();
    let ms1 = first.methods();
    let ms = route.routes().methods();
    assert(ms1 =~= seq![Method::GET]);
    assert(ms =~= seq![Method::GET, Method::POST]);
    if req.method == Method::GET {
        assert(ms1[0] == Method::GET);
        assert(ms[0] == Method::GET);
    } else if req.method == Method::POST {
        assert(ms[1] == Method::POST);
        assert(!ms1.contains(Method::POST));
    } else {
        assert(!ms.contains(req.method));
        if req.method == Method::HEAD {
            assert(ms[0] == Method::GET);
            assert(ms1[0] == Method::GET);
            let r2 = choose|r: Result<Response, Error>| #[trigger]
                route.routes().handles(as_get(req), state, r) && without_body(r, res);
            assert(route.routes().prev().handles(as_get(req), state, r2));
        }
    }
}

/// A `HEAD` request with no endpoint of its own is answered by the `GET`
/// endpoint, with the body of its response dropped.
pub proof fn head_falls_back_to_get<S, R>(
    route: RouteMethod<S, R>,
    req: Request,
    state: S,
    res: Result<Response, Error>,
) where S: Clone + Send + Sync + 'static, R: MethodRoutes<S>
    requires
        route.gives(req, state, res),
        req.method == Method::HEAD,
        !route.routes().methods().contains(Method::HEAD),
        route.routes().methods().contains(Method::GET),
    ensures
        exists|r: Result<Response, Error>| #[trigger]
            route.routes().handles(as_get(req), state, r) && without_body(r, res),
        res matches Ok(resp) ==> resp.body@.len() == 0,
{
}

/// A request whose method has no endpoint, other than a `HEAD` request where
/// a `GET` endpoint exists, fails with `MethodNotAllowedError`.
pub proof fn unregistered_method_not_allowed<S, R>(
    route: RouteMethod<S, R>,
    req: Request,
    state: S,
    res: Result<Response, Error>,
) where S: Clone + Send + Sync + 'static, R: MethodRoutes<S>
    requires
        route.gives(req, state, res),
        !route.routes().methods().contains(req.method),
        !(req.method == Method::HEAD && route.routes().methods().contains(Method::GET)),
    ensures
        res matches Err(e) && is_method_not_allowed(e),
{
}

/// `after` hands the inner endpoint's result to the function, errors
/// included: where the inner endpoint can only fail with `e` on a request,
/// every result of `after` is one that the function gives for `Err(e)`.
pub proof fn after_maps_errors_too<E, F, T, S>(
    ep: After<E, F, T, S>,
    req: Request,
    state: S,
    e: Error,
    res: Result<T, Error>,
) where
    E: Endpoint<S>,
    F: Fn(Result<E::Output, Error>) -> Result<T, Error> + Send + Sync,
    T: IntoResponse + Send + Sync,
    S: Send + Sync,

    requires
        forall|r: Result<E::Output, Error>| #[trigger]
            ep.inner().gives(req, state, r) ==> r == Err::<E::Output, Error>(e),
        ep.gives(req, state, res),
    ensures
        call_ensures(ep.func(), (Err::<E::Output, Error>(e),), res),
{
    let r = choose|r: Result<E::Output, Error>| #[trigger]
        ep.inner().gives(req, state, r) && call_ensures(ep.func(), (r,), res);
    assert(r == Err::<E::Output, Error>(e));
}

/// `after` calls the function on every result of the inner endpoint: where
/// the inner endpoint can only give `r`, every result of `after` is one that
/// the function gives for `r`.
pub proof fn after_maps_the_inner_result<E, F, T, S>(
    ep: After<E, F, T, S>,
    req: Request,
    state: S,
    r: Result<E::Output, Error>,
    res: Result<T, Error>,
) where
    E: Endpoint<S>,
    F: Fn(Result<E::Output, Error>) -> Result<T, Error> + Send + Sync,
    T: IntoResponse + Send + Sync,
    S: Send + Sync,

    requires
        forall|r2: Result<E::Output, Error>| #[trigger] ep.inner().gives(req, state, r2) ==> r2 == r,
        ep.gives(req, state, res),
    ensures
        call_ensures(ep.func(), (r,), res),
{
    let r2 = choose|r2: Result<E::Output, Error>| #[trigger]
        ep.inner().gives(req, state, r2) && call_ensures(ep.func(), (r2,), res);
    assert(r2 == r);
}

/// Where the request-mapping function of `before` fails with `e`, `before`
/// returns exactly `Err(e)`, without calling the inner endpoint.
pub proof fn before_returns_the_mapper_error<E, F, S>(
    ep: Before<E, F, S>,
    req: Request,
    state: S,
    e: Error,
    res: Result<E::Output, Error>,
) where
    E: Endpoint<S>,
    F: Fn(Request) -> Result<Request, Error> + Send + Sync,
    S: Send + Sync,

    requires
        forall|m: Result<Request, Error>| #[trigger]
            call_ensures(ep.func(), (req,), m) ==> m == Err::<Request, Error>(e),
        ep.gives(req, state, res),
    ensures
        res == Err::<E::Output, Error>(e),
{
    let m = choose|m: Result<Request, Error>| #[trigger]
        call_ensures(ep.func(), (req,), m) && match m {
            Ok(req2) => ep.inner().gives(req2, state, res),
            Err(e2) => res == Err::<E::Output, Error>(e2),
        };
    assert(m == Err::<Request, Error>(e));
}

/// Where the request-mapping function of `before` gives a request, `before`
/// returns what the inner endpoint gives for that request.
pub proof fn before_passes_the_mapped_request<E, F, S>(
    ep: Before<E, F, S>,
    req: Request,
    req2: Request,
    state: S,
    res: Result<E::Output, Error>,
) where
    E: Endpoint<S>,
    F: Fn(Request) -> Result<Request, Error> + Send + Sync,
    S: Send + Sync,

    requires
        forall|m: Result<Request, Error>| #[trigger]
            call_ensures(ep.func(), (req,), m) ==> m == Ok::<Request, Error>(req2),
        ep.gives(req, state, res),
    ensures
        ep.inner().gives(req2, state, res),
{
    let m = choose|m: Result<Request, Error>| #[trigger]
        call_ensures(ep.func(), (req,), m) && match m {
            Ok(r2) => ep.inner().gives(r2, state, res),
            Err(e2) => res == Err::<E::Output, Error>(e2),
        };
    assert(m == Ok::<Request, Error>(req2));
}

/// `catch_error` leaves a success alone: where the inner endpoint can only
/// give `Ok(o)`, `catch_error` gives the output's own response.
pub proof fn catch_error_keeps_success<E, F, R, ErrType, S>(
    ep: CatchError<E, F, R, ErrType, S>,
    req: Request,
    state: S,
    o: E::Output,
    res: Result<Response, Error>,
) where
    E: Endpoint<S>,
    F: Fn(ErrType) -> R + Send + Sync,
    R: IntoResponse + Send + Sync,
    ErrType: ErrorType + Send + Sync + 'static,
    S: Send + Sync,

    requires
        forall|r: Result<E::Output, Error>| #[trigger]
            ep.inner().gives(req, state, r) ==> r == Ok::<E::Output, Error>(o),
        ep.gives(req, state, res),
    ensures
        res matches Ok(resp) && resp@ == o.response_view(),
{
    let r = choose|r: Result<E::Output, Error>| #[trigger]
        ep.inner().gives(req, state, r) && match r {
            Ok(o2) => res matches Ok(resp) && resp@ == o2.response_view(),
            Err(e) => match ErrType::spec_downcast(e) {
                Some(t) => exists|h: R| #[trigger]
                    call_ensures(ep.func(), (t,), h) && (res matches Ok(resp) && resp@
                        == h.response_view()),
                None => res == Err::<Response, Error>(e),
            },
        };
    assert(r == Ok::<E::Output, Error>(o));
}

/// `catch_error` hands an error of the caught type to the function: where
/// the inner endpoint can only fail with `e`, and `e` is of the caught type
/// as `t`, `catch_error` gives the response of what the function gives for
/// `t`.
pub proof fn catch_error_handles_caught_error<E, F, R, ErrType, S>(
    ep: CatchError<E, F, R, ErrType, S>,
    req: Request,
    state: S,
    e: Error,
    t: ErrType,
    res: Result<Response, Error>,
) where
    E: Endpoint<S>,
    F: Fn(ErrType) -> R + Send + Sync,
    R: IntoResponse + Send + Sync,
    ErrType: ErrorType + Send + Sync + 'static,
    S: Send + Sync,

    requires
        forall|r: Result<E::Output, Error>| #[trigger]
            ep.inner().gives(req, state, r) ==> r == Err::<E::Output, Error>(e),
        ErrType::spec_downcast(e) == Some(t),
        ep.gives(req, state, res),
    ensures
        exists|h: R| #[trigger]
            call_ensures(ep.func(), (t,), h) && (res matches Ok(resp) && resp@ == h.response_view()),
{
    let r = choose|r: Result<E::Output, Error>| #[trigger]
        ep.inner().gives(req, state, r) && match r {
            Ok(o2) => res matches Ok(resp) && resp@ == o2.response_view(),
            Err(e2) => match ErrType::spec_downcast(e2) {
                Some(t2) => exists|h: R| #[trigger]
                    call_ensures(ep.func(), (t2,), h) && (res matches Ok(resp) && resp@
                        == h.response_view()),
                None => res == Err::<Response, Error>(e2),
            },
        };
    assert(r == Err::<E::Output, Error>(e));
}

/// The private-key formats of the PEM section kinds: PKCS #1 ("RSA PRIVATE
/// KEY"), PKCS #8 ("PRIVATE KEY") and SEC1 ("EC PRIVATE KEY").
pub open spec fn key_section_format(kind: PemKind) -> Option<KeyFormat> {
    if kind == PemKind::Pkcs1Key {
        Some(KeyFormat::Pkcs1)
    } else if kind == PemKind::Pkcs8Key {
        Some(KeyFormat::Pkcs8)
    } else if kind == PemKind::Sec1Key {
        Some(KeyFormat::Sec1)
    } else {
        None
    }
}

/// A key section that starts the key data is the private key of the
/// settings, whichever of the three key encodings it has: where the
/// certificate data holds certificates and the key is usable, the settings
/// hold those certificates and that key in its format.
pub proof fn first_key_section_is_the_key(
    cert: Seq<u8>,
    key: Seq<u8>,
    alpn: Seq<Seq<u8>>,
    kind: PemKind,
    format: KeyFormat,
    der: Seq<u8>,
    rest: nat,
    cs: Seq<Seq<u8>>,
    r: Result<TlsSettings, ConfigError>,
)
    requires
        collect_certs(pem_certs(cert)) == Ok::<Seq<Seq<u8>>, Seq<char>>(cs),
        cs.len() > 0,
        pem_next(key) == PemStep::Section(kind, der, rest),
        key_section_format(kind) == Some(format),
        key_is_supported(format, der),
        settings_outcome(cert, key, alpn, r),
    ensures
        r matches Ok(t) && t.key_format == format && t.key_der@ == der
            && crate::listener::quinn::bytes_list(t.certs@) == cs
            && crate::listener::quinn::bytes_list(t.alpn_protocols@) == alpn
            && t.max_early_data_size == u32::MAX,
{
}

/// An error text that names `NO_ERROR` marks a graceful close, whatever the
/// texts of its source chain.
pub proof fn no_error_text_is_graceful(own: Seq<char>, sources: Seq<Seq<char>>)
    requires
        contains_text(own, "NO_ERROR"@),
    ensures
        graceful_close(own, sources),
{
}

/// An error text that names an application close with code 0 or a closed
/// connection marks a graceful close, whatever the texts of its source chain.
pub proof fn closed_connection_text_is_graceful(own: Seq<char>, sources: Seq<Seq<char>>)
    requires
        contains_text(own, "ApplicationClose: 0x0"@) || contains_text(own, "ApplicationClose(0x0)"@)
            || contains_text(own, "ConnectionClosed"@),
    ensures
        graceful_close(own, sources),
{
}

/// An error whose text names none of the graceful-close markers, and whose
/// source chain names neither `NO_ERROR` nor an application close, is a
/// failure.
pub proof fn unmarked_error_is_not_graceful(own: Seq<char>, sources: Seq<Seq<char>>)
    requires
        !contains_text(own, "NO_ERROR"@),
        !contains_text(own, "ApplicationClose: 0x0"@),
        !contains_text(own, "ApplicationClose(0x0)"@),
        !contains_text(own, "ConnectionClosed"@),
        forall|i: int| 0 <= i < sources.len() ==> !contains_text(#[trigger] sources[i], "NO_ERROR"@)
            && !contains_text(sources[i], "ApplicationClose"@),
    ensures
        !graceful_close(own, sources),
{
}

/// A source in the chain whose text names `NO_ERROR` or an application close
/// marks a graceful close, whatever the error's own text.
pub proof fn graceful_source_text_is_graceful(own: Seq<char>, sources: Seq<Seq<char>>, i: int)
    requires
        0 <= i < sources.len(),
        contains_text(sources[i], "NO_ERROR"@) || contains_text(sources[i], "ApplicationClose"@),
    ensures
        graceful_close(own, sources),
{
}

} // verus!

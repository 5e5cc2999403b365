use std::sync::atomic::{AtomicUsize, Ordering};
use std::sync::Arc;

use poem::endpoint::{make, make_sync, Endpoint, EndpointExt, IntoEndpoint};
use poem::message::{Error, ErrorReason, Method, NotFoundError, Request, Response, STATUS_BAD_REQUEST};
use poem::middleware::AddData;
use poem::route::RouteMethod;

fn body_of(resp: Result<Response, Error>) -> String {
    resp.unwrap().take_body()
}

#[test]
fn test_make() {
    let ep = make(|req: Request| format!("method={:?}", req.method())).map_to_response();
    let resp = ep.call(Request::new(Method::DELETE, "/"), &());
    assert_eq!(body_of(resp), "method=DELETE");
}

#[test]
fn test_before() {
    assert_eq!(
        make_sync(|req: Request| format!("{:?}", req.method()))
            .before(|mut req: Request| {
                req.set_method(Method::POST);
                Ok(req)
            })
            .call(Request::default(), &())
            .unwrap(),
        "POST"
    );
}

#[test]
fn test_after() {
    assert_eq!(
        make_sync(|_: Request| "abc")
            .after(|_| Ok::<_, Error>("def"))
            .call(Request::default(), &())
            .unwrap(),
        "def"
    );
}

#[test]
fn test_map_to_response() {
    let resp = make_sync(|_: Request| "abc").map_to_response().call(Request::default(), &());
    assert_eq!(body_of(resp), "abc");
}

#[test]
fn test_and_then() {
    assert_eq!(
        make_sync(|_: Request| "abc")
            .and_then(|resp: &str| Ok(resp.to_string() + "def"))
            .call(Request::default(), &())
            .unwrap(),
        "abcdef"
    );

    let resp = make_sync(|_: Request| Err::<String, _>(Error::from_status(STATUS_BAD_REQUEST)))
        .and_then(|resp: String| Ok(resp + "def"))
        .get_response(Request::default());
    assert_eq!(resp.status(), STATUS_BAD_REQUEST);
}

#[test]
fn test_map() {
    assert_eq!(
        make_sync(|_: Request| "abc")
            .map(|resp: &str| resp.to_string() + "def")
            .call(Request::default(), &())
            .unwrap(),
        "abcdef"
    );

    let resp = make_sync(|_: Request| Err::<String, _>(Error::from_status(STATUS_BAD_REQUEST)))
        .map(|resp: String| resp + "def")
        .get_response(Request::default());
    assert_eq!(resp.status(), STATUS_BAD_REQUEST);
}

#[test]
fn test_around() {
    let ep = make(|mut req: Request| req.take_body() + "b");
    assert_eq!(
        ep.around(|ep: Arc<_>, mut req: Request, _state: ()| {
            req.set_body("a".to_string());
            let resp = ep.call(req, &())?;
            Ok(resp + "c")
        })
        .call(Request::default(), &())
        .unwrap(),
        "abc"
    );
}

fn extension_text(req: &Request) -> String {
    match req.extensions.get::<i32>() {
        Some(v) => v.to_string(),
        None => "none".to_string(),
    }
}

#[test]
fn test_with_if() {
    let resp = make_sync(|req: Request| extension_text(&req))
        .with_if(true, AddData::new(1i32))
        .call(Request::default(), &());
    assert_eq!(body_of(resp), "1");

    let resp = make_sync(|req: Request| extension_text(&req))
        .with_if(false, AddData::new(1i32))
        .call(Request::default(), &());
    assert_eq!(body_of(resp), "none");
}

#[test]
fn test_into_endpoint() {
    struct MyEndpointFactory;

    impl IntoEndpoint for MyEndpointFactory {
        type Endpoint = RouteMethod<(), poem::route::MethodEntry<
            poem::endpoint::SyncFnEndpoint<&'static str, &'static str, fn(Request) -> &'static str>,
            poem::route::MethodEntry<
                poem::endpoint::SyncFnEndpoint<&'static str, &'static str, fn(Request) -> &'static str>,
                poem::route::NoMethods,
            >,
        >>;

        fn into_endpoint(self) -> Self::Endpoint {
            let a: fn(Request) -> &'static str = |_| "a";
            let b: fn(Request) -> &'static str = |_| "b";
            RouteMethod::new().get(make_sync(a)).post(make_sync(b))
        }
    }

    let app = MyEndpointFactory.map_to_response();
    assert_eq!(body_of(app.call(Request::new(Method::GET, "/api"), &())), "a");
    assert_eq!(body_of(app.call(Request::new(Method::POST, "/api"), &())), "b");
}

#[test]
fn test_data_opt() {
    let ep = EndpointExt::<()>::data_opt(make_sync(|req: Request| extension_text(&req)), Some(100i32));
    assert_eq!(body_of(ep.call(Request::default(), &())), "100");

    let ep = EndpointExt::<()>::data_opt(make_sync(|req: Request| extension_text(&req)), None::<i32>);
    assert_eq!(body_of(ep.call(Request::default(), &())), "none");
}

#[test]
fn test_add_data() {
    let ep = EndpointExt::<()>::with(
        make_sync(|req: Request| {
            assert_eq!(req.extensions.get::<i32>(), Some(&100));
        }),
        AddData::new(100i32),
    );
    let resp = ep.get_response(Request::default());
    assert_eq!(resp.status(), 200);
}

#[test]
fn to_response_turns_errors_into_responses() {
    let ep = make_sync(|_: Request| Err::<String, _>(Error::from_status(STATUS_BAD_REQUEST))).to_response();
    let resp = ep.call(Request::default(), &()).unwrap();
    assert_eq!(resp.status(), STATUS_BAD_REQUEST);

    let ep = make_sync(|_: Request| "hello").to_response();
    let resp = ep.call(Request::default(), &()).unwrap();
    assert_eq!(resp.status(), 200);
    assert_eq!(resp.header("content-type").as_deref(), Some("text/plain; charset=utf-8"));
    assert_eq!(resp.body, "hello");
}

#[test]
fn map_to_response_keeps_errors() {
    let ep = make_sync(|_: Request| Err::<(), _>(Error::from_status(STATUS_BAD_REQUEST))).map_to_response();
    let err = ep.call(Request::default(), &()).unwrap_err();
    assert_eq!(err.status(), STATUS_BAD_REQUEST);
}

#[test]
fn catch_all_error_handles_every_error() {
    let ep = make_sync(|_: Request| Err::<String, _>(Error::from_status(STATUS_BAD_REQUEST)))
        .catch_all_error(|err: Error| format!("caught {}", err.status()));
    let resp = ep.call(Request::default(), &()).unwrap();
    assert_eq!(resp.status(), 200);
    assert_eq!(resp.body, "caught 400");

    let ep = make_sync(|_: Request| "fine").catch_all_error(|_: Error| "caught");
    assert_eq!(body_of(ep.call(Request::default(), &())), "fine");
}

#[test]
fn catch_error_handles_only_its_type() {
    let ep = make_sync(|_: Request| Err::<String, _>(NotFoundError.into_error()))
        .catch_error(|_: NotFoundError| "custom not found");
    let resp = ep.call(Request::default(), &()).unwrap();
    assert_eq!(resp.body, "custom not found");

    let ep = make_sync(|_: Request| Err::<String, _>(Error::from_status(STATUS_BAD_REQUEST)))
        .catch_error(|_: NotFoundError| "custom not found");
    let err = ep.call(Request::default(), &()).unwrap_err();
    assert_eq!(err.status(), STATUS_BAD_REQUEST);
    assert_eq!(err.reason, ErrorReason::Status);
}

#[test]
fn inspect_err_sees_errors_and_keeps_them() {
    static SEEN: AtomicUsize = AtomicUsize::new(0);
    static SEEN_TYPED: AtomicUsize = AtomicUsize::new(0);

    let ep = make_sync(|_: Request| Err::<String, _>(NotFoundError.into_error()))
        .inspect_all_err(|_: &Error| {
            SEEN.fetch_add(1, Ordering::SeqCst);
        })
        .inspect_err(|_: &NotFoundError| {
            SEEN_TYPED.fetch_add(1, Ordering::SeqCst);
        });
    let err = ep.call(Request::default(), &()).unwrap_err();
    assert_eq!(err.status(), 404);
    assert_eq!(err.message, "not found");
    assert_eq!(SEEN.load(Ordering::SeqCst), 1);
    assert_eq!(SEEN_TYPED.load(Ordering::SeqCst), 1);

    let ep = make_sync(|_: Request| "ok").inspect_all_err(|_: &Error| {
        SEEN.fetch_add(1, Ordering::SeqCst);
    });
    assert_eq!(ep.call(Request::default(), &()).unwrap(), "ok");
    assert_eq!(SEEN.load(Ordering::SeqCst), 1);
}

#[test]
fn boxed_endpoint_calls_inner() {
    let ep = EndpointExt::<()>::boxed(make_sync(|_: Request| "boxed"));
    assert_eq!(ep.call(Request::default(), &()).unwrap(), "boxed");
}

#[test]
fn get_response_of_error_has_error_status() {
    let resp = make_sync(|_: Request| Err::<String, _>(NotFoundError.into_error())).get_response(Request::default());
    assert_eq!(resp.status(), 404);
    assert_eq!(resp.body, "not found");
}

#[test]
fn middleware_pairs_apply_in_order() {
    let ep = EndpointExt::<()>::with(
        make_sync(|req: Request| extension_text(&req)),
        (AddData::new(1i32), AddData::new(2i32)),
    );
    assert_eq!(body_of(ep.map_to_response().call(Request::default(), &())), "1");
}

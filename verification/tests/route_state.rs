use poem::endpoint::{make_sync, Endpoint, EndpointExt};
use poem::message::{Error, ErrorReason, Method, Request, STATUS_METHOD_NOT_ALLOWED};
use poem::route::{self, RouteMethod};
use poem::web::{FromRef, State, StateData};

fn index(_: Request) -> &'static str {
    "hello"
}

const ALL_METHODS: [Method; 9] = [
    Method::GET,
    Method::POST,
    Method::DELETE,
    Method::PUT,
    Method::HEAD,
    Method::OPTIONS,
    Method::CONNECT,
    Method::PATCH,
    Method::TRACE,
];

#[test]
fn method_not_allowed() {
    let route = RouteMethod::<()>::new();
    let err = route.call(Request::new(Method::GET, "/"), &()).unwrap_err();
    assert_eq!(err.status(), STATUS_METHOD_NOT_ALLOWED);
    assert_eq!(err.reason, ErrorReason::MethodNotAllowed);
    let resp = route.get_response(Request::new(Method::GET, "/"));
    assert_eq!(resp.status(), STATUS_METHOD_NOT_ALLOWED);
}

#[test]
fn route_method() {
    for method in ALL_METHODS {
        let route = RouteMethod::<()>::new().method(method, make_sync(index)).post(make_sync(index));
        let mut resp = route.call(Request::new(method, "/"), &()).unwrap();
        assert_eq!(resp.status(), 200);
        assert_eq!(resp.take_body(), "hello");
    }

    let check = |route: &dyn Fn(Method) -> Result<poem::Response, Error>, method: Method| {
        let mut resp = route(method).unwrap();
        assert_eq!(resp.status(), 200);
        assert_eq!(resp.take_body(), "hello");
    };
    check(&|m| RouteMethod::<()>::new().get(make_sync(index)).post(make_sync(index)).call(Request::new(m, "/"), &()), Method::GET);
    check(&|m| RouteMethod::<()>::new().post(make_sync(index)).post(make_sync(index)).call(Request::new(m, "/"), &()), Method::POST);
    check(&|m| RouteMethod::<()>::new().delete(make_sync(index)).post(make_sync(index)).call(Request::new(m, "/"), &()), Method::DELETE);
    check(&|m| RouteMethod::<()>::new().put(make_sync(index)).post(make_sync(index)).call(Request::new(m, "/"), &()), Method::PUT);
    check(&|m| RouteMethod::<()>::new().head(make_sync(index)).post(make_sync(index)).call(Request::new(m, "/"), &()), Method::HEAD);
    check(&|m| RouteMethod::<()>::new().options(make_sync(index)).post(make_sync(index)).call(Request::new(m, "/"), &()), Method::OPTIONS);
    check(&|m| RouteMethod::<()>::new().connect(make_sync(index)).post(make_sync(index)).call(Request::new(m, "/"), &()), Method::CONNECT);
    check(&|m| RouteMethod::<()>::new().patch(make_sync(index)).post(make_sync(index)).call(Request::new(m, "/"), &()), Method::PATCH);
    check(&|m| RouteMethod::<()>::new().trace(make_sync(index)).post(make_sync(index)).call(Request::new(m, "/"), &()), Method::TRACE);
}

#[test]
fn head_method() {
    let route = RouteMethod::<()>::new().get(make_sync(index));
    let mut resp = route.call(Request::new(Method::HEAD, "/"), &()).unwrap();
    assert_eq!(resp.status(), 200);
    assert_eq!(resp.take_body(), "");
}

#[test]
fn helper_functions_register_one_method() {
    let r = route::get::<_, ()>(make_sync(index));
    assert!(r.call(Request::new(Method::GET, "/"), &()).is_ok());
    assert!(r.call(Request::new(Method::POST, "/"), &()).is_err());
    let r = route::post::<_, ()>(make_sync(index));
    assert!(r.call(Request::new(Method::POST, "/"), &()).is_ok());
    let r = route::put::<_, ()>(make_sync(index));
    assert!(r.call(Request::new(Method::PUT, "/"), &()).is_ok());
    let r = route::delete::<_, ()>(make_sync(index));
    assert!(r.call(Request::new(Method::DELETE, "/"), &()).is_ok());
    let r = route::head::<_, ()>(make_sync(index));
    assert!(r.call(Request::new(Method::HEAD, "/"), &()).is_ok());
    assert!(r.call(Request::new(Method::GET, "/"), &()).is_err());
    let r = route::options::<_, ()>(make_sync(index));
    assert!(r.call(Request::new(Method::OPTIONS, "/"), &()).is_ok());
    let r = route::connect::<_, ()>(make_sync(index));
    assert!(r.call(Request::new(Method::CONNECT, "/"), &()).is_ok());
    let r = route::patch::<_, ()>(make_sync(index));
    assert!(r.call(Request::new(Method::PATCH, "/"), &()).is_ok());
    let r = route::trace::<_, ()>(make_sync(index));
    assert!(r.call(Request::new(Method::TRACE, "/"), &()).is_ok());
}

#[test]
fn registering_a_method_again_replaces_its_endpoint() {
    let route = RouteMethod::<()>::new()
        .get(make_sync(|_: Request| "first"))
        .post(make_sync(|_: Request| "post"))
        .get(make_sync(|_: Request| "second"));
    let mut resp = route.call(Request::new(Method::GET, "/"), &()).unwrap();
    assert_eq!(resp.take_body(), "second");
    let mut resp = route.call(Request::new(Method::POST, "/"), &()).unwrap();
    assert_eq!(resp.take_body(), "post");
    let mut resp = route.call(Request::new(Method::HEAD, "/"), &()).unwrap();
    assert_eq!(resp.take_body(), "");
}

#[test]
fn head_does_not_fall_back_without_get() {
    let route = RouteMethod::<()>::new().post(make_sync(index));
    let err = route.call(Request::new(Method::HEAD, "/"), &()).unwrap_err();
    assert_eq!(err.status(), STATUS_METHOD_NOT_ALLOWED);
}

#[derive(Clone)]
struct TestState {
    value: i32,
}

struct ShowValue;

impl Endpoint<TestState> for ShowValue {
    type Output = String;

    fn call(&self, req: Request, state: &TestState) -> Result<String, Error> {
        assert!(req.extensions.get::<StateData<TestState>>().is_some());
        Ok(format!("{}", state.value))
    }
}

#[test]
fn test_state_extractor() {
    let app = ShowValue.with_state(TestState { value: 42 });
    let resp = app.get_response(Request::default());
    assert_eq!(resp.status(), 200);
    assert_eq!(resp.body, "42");
}

#[derive(Clone)]
struct OuterState {
    inner: InnerState,
}

#[derive(Clone)]
struct InnerState {
    name: String,
}

impl FromRef<OuterState> for InnerState {
    fn from_ref(outer: &OuterState) -> Self {
        outer.inner.clone()
    }
}

struct ShowInner;

impl Endpoint<InnerState> for ShowInner {
    type Output = String;

    fn call(&self, _req: Request, state: &InnerState) -> Result<String, Error> {
        Ok(state.name.clone())
    }
}

struct ShowOuter;

impl Endpoint<OuterState> for ShowOuter {
    type Output = String;

    fn call(&self, _req: Request, state: &OuterState) -> Result<String, Error> {
        let State(inner) = State::<InnerState>::from_state(state);
        Ok(inner.name)
    }
}

#[test]
fn test_substate_extraction() {
    let outer = OuterState { inner: InnerState { name: "test".to_string() } };
    let inner = InnerState::from_ref(&outer);
    let app = EndpointExt::<InnerState>::with_state(ShowInner, inner);
    let resp = app.get_response(Request::default());
    assert_eq!(resp.status(), 200);
    assert_eq!(resp.body, "test");
}

#[test]
fn test_outer_state_extraction() {
    let outer = OuterState { inner: InnerState { name: "test".to_string() } };
    let app = ShowOuter.with_state(outer);
    let resp = app.get_response(Request::default());
    assert_eq!(resp.status(), 200);
    assert_eq!(resp.body, "test");
}

#[test]
fn state_from_itself_is_a_clone() {
    let s = TestState { value: 7 };
    let State(t) = State::<TestState>::from_state(&s);
    assert_eq!(t.value, 7);
    let mut st = State(TestState { value: 1 });
    st.value = 5;
    assert_eq!(st.0.value, 5);
}

#[test]
fn get_and_post_route_example() {
    let route = RouteMethod::<()>::new()
        .get(make_sync(|_: Request| "get"))
        .post(make_sync(|_: Request| "post"));
    let resp = route.get_response(Request::new(Method::GET, "/"));
    assert_eq!(resp.status(), 200);
    assert_eq!(resp.body, "get");
    let resp = route.get_response(Request::new(Method::POST, "/"));
    assert_eq!(resp.status(), 200);
    assert_eq!(resp.body, "post");
    let resp = route.get_response(Request::new(Method::PUT, "/"));
    assert_eq!(resp.status(), STATUS_METHOD_NOT_ALLOWED);
    let resp = route.get_response(Request::new(Method::HEAD, "/"));
    assert_eq!(resp.status(), 200);
    assert_eq!(resp.body, "");
}

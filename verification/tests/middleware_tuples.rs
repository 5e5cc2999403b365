use poem::endpoint::make_sync;
use poem::{Endpoint, EndpointExt, Error, IntoResponse, Method, Middleware, Request, Response};

/// Appends a tag to the body of every response of the endpoint it wraps.
struct Append(&'static str);

struct AppendEndpoint<E> {
    inner: E,
    tag: &'static str,
}

impl<E: Endpoint<()>> Middleware<E, ()> for Append {
    type Output = AppendEndpoint<E>;

    fn transform(&self, ep: E) -> AppendEndpoint<E> {
        AppendEndpoint { inner: ep, tag: self.0 }
    }
}

impl<E: Endpoint<()>> Endpoint<()> for AppendEndpoint<E> {
    type Output = Response;

    fn call(&self, req: Request, state: &()) -> Result<Response, Error> {
        let mut resp = self.inner.call(req, state)?.into_response();
        let mut body = resp.take_body();
        body.push_str(self.tag);
        resp.set_body(body);
        Ok(resp)
    }
}

fn body_of<E: Endpoint<(), Output = Response>>(ep: &E) -> String {
    let mut resp = ep.call(Request::new(Method::GET, "/"), &()).unwrap();
    resp.take_body()
}

#[test]
fn tuple_of_two_middlewares_applies_them_in_order() {
    let ep = make_sync(|_: Request| "x").with((Append("a"), Append("b")));
    assert_eq!(body_of(&ep), "xab");
}

#[test]
fn tuple_of_four_middlewares_applies_them_in_order() {
    let ep = make_sync(|_: Request| "x").with((Append("a"), Append("b"), Append("c"), Append("d")));
    assert_eq!(body_of(&ep), "xabcd");
}

#[test]
fn tuple_of_sixteen_middlewares_applies_them_in_order() {
    let ep = make_sync(|_: Request| "").with((
        Append("a"),
        Append("b"),
        Append("c"),
        Append("d"),
        Append("e"),
        Append("f"),
        Append("g"),
        Append("h"),
        Append("i"),
        Append("j"),
        Append("k"),
        Append("l"),
        Append("m"),
        Append("n"),
        Append("o"),
        Append("p"),
    ));
    assert_eq!(body_of(&ep), "abcdefghijklmnop");
}

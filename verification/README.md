# poem (verified core)

The request-handling core of an HTTP framework, written in Verus and proved
against its contracts:

- `src/message.rs`: requests, responses, errors and the conversions between
  them (`IntoResponse`, `IntoResult`, typed errors).
- `src/endpoint/`: the `Endpoint` trait, whose spec function `gives` says
  which results an endpoint may return, endpoints made from functions, and
  the combinators of `EndpointExt` (`before`, `after`, `around`, `map`,
  `and_then`, `map_to_response`, `to_response`, `catch_error`,
  `catch_all_error`, `inspect_err`, `inspect_all_err`, `with_state`, ...).
- `src/middleware/`: the `Middleware` trait, `AddData`, and tuples of 2 to
  16 middlewares applied first to last.
- `src/route/`: routing by request method (registering a method again
  replaces its endpoint), with the `HEAD`-to-`GET` fallback and
  `405 Method Not Allowed`.
- `src/web/state.rs`: state handed to endpoints and substates (`FromRef`).
- `src/listener/quinn.rs`: the QUIC listener's configuration: PEM parsing
  decisions and the rustls/quinn configurations built from them.
- `src/http3.rs`: decisions of the HTTP/3 server (graceful close, the accept
  loop's reaction to shutdown, incoming and closed connections, draining).
- `src/handler.rs`: what the `handler` attribute generates for a function:
  the endpoint type, the extracted arguments, the `FromRef` bounds of its
  `State<T>` arguments, and whether the call is awaited.
- `src/laws.rs`: properties of the combinators and of method routing.

`app/` holds the I/O around it: binding the QUIC endpoint, accepting
connections and HTTP/3 streams, converting `http` values, and rendering the
`handler` attribute's plan as tokens.

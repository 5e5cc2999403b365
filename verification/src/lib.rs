//! Endpoints, middleware, method routing and state for an HTTP framework,
//! with the QUIC listener's TLS configuration.

pub mod endpoint;
pub mod handler;
pub mod http3;
pub mod laws;
pub mod listener;
pub mod message;
pub mod middleware;
pub mod route;
pub mod web;

pub use endpoint::{Endpoint, EndpointExt, IntoEndpoint};
pub use message::{Error, IntoResponse, IntoResult, Method, Request, Response};
pub use middleware::Middleware;
pub use route::{connect, delete, get, head, options, patch, post, put, trace, RouteMethod};

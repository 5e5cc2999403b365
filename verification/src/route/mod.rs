//! Routing by request method.

pub mod router_method;

pub use router_method::{
    connect, delete, get, head, options, patch, post, put, trace, MethodEntry, MethodRoutes,
    NoMethods, RouteMethod,
};

//! Endpoints and the combinators that wrap them.

pub mod after;
pub mod and_then;
pub mod around;
pub mod before;
pub mod catch_all_error;
pub mod catch_error;
pub mod endpoint;
pub mod inspect_all_err;
pub mod inspect_err;
pub mod map;
pub mod map_to_response;
pub mod to_response;

pub use after::After;
pub use and_then::AndThen;
pub use around::Around;
pub use before::Before;
pub use catch_all_error::CatchAllError;
pub use catch_error::CatchError;
pub use endpoint::{
    make, make_sync, BoxEndpoint, DynEndpoint, EitherEndpoint, Endpoint, EndpointExt, IntoEndpoint,
    SyncFnEndpoint, ToDynEndpoint, WithState,
};
pub use inspect_all_err::InspectAllError;
pub use inspect_err::InspectError;
pub use map::MapEndpoint;
pub use map_to_response::MapToResponse;
pub use to_response::ToResponse;

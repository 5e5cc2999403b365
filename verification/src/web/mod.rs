//! Values that handlers take from a request.

pub mod state;

pub use state::{FromRef, State, StateData};

//! Listeners: the QUIC listener's configuration.

pub mod quinn;

pub use self::quinn::{ConfigError, KeyFormat, QuinnConfig, TlsSettings};

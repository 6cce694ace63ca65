//! Hyperion: an HTTP/1.1 message engine.
//!
//! The crate frames and parses requests out of raw bytes, routes them by
//! method and path, and renders responses back into wire bytes. Every function
//! carries a contract over a mathematical model of the message, and Verus
//! proves that the code keeps it.

/// The HTTP/1.1 message model, parser, router and serializer.
pub mod http;

/// Decoding of the fixed-size headers of TLS records and handshake messages.
pub mod tls;

/// Searching byte sequences for the delimiters of the wire format.
pub mod bytes;

/// The choices that a server makes once.
pub mod config;

/// Errors and their conversion into responses.
pub mod error;

/// Headers: the recognized names and their values.
pub mod header;

/// What the library needs of `serde_json`.
pub mod json;

/// What holds of the parser, the serializer and the router taken together.
pub mod laws;

/// Request methods.
pub mod method;

/// The grammar of a request and the parser that reads it out of bytes.
pub mod parser;

/// Requests and how they are rendered into bytes.
pub mod request;

/// Responses, their bodies, and how they are rendered into bytes.
pub mod response;

/// The routing table and the handlers that it leads to.
pub mod router;

/// What a server decides for each connection.
pub mod server;

/// Status codes and their reason phrases.
pub mod status;

/// UTF-8 text helpers and decimal numbers.
pub mod text;

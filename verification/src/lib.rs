//! Corro: the verified core of an S3-compatible object store server.
//!
//! The library holds the parts of the server that decide things: which S3
//! error code, HTTP status and message every error carries, how an error is
//! framed as an S3 XML error document, the configuration defaults, and the
//! storage API with its placeholder backend. The HTTP server, configuration
//! loading and logging live in the application around it.

pub mod api;
pub mod error;
pub mod external;
pub mod settings;
pub mod storage;

//! Secret-gated download redirector: the verified core.
//!
//! A client presents an opaque per-file secret; the service resolves it into
//! object-store coordinates, confirms the object exists, mints a time-limited
//! presigned retrieval URL carrying a download filename, records an access-log
//! entry, and redirects the client. This crate holds the decision logic of
//! that pipeline: configuration merging, failure classification, header
//! construction, and the request state machine. The surrounding I/O (HTTP
//! serving, the relational store, the object store's network calls) lives
//! outside and feeds this core plain values.

pub mod config;
pub mod disposition;
pub mod failure;
pub mod pipeline;
pub mod presign;
pub mod render;
pub mod settings;

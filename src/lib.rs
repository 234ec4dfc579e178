//! Relays a multipart file upload to an S3-compatible bucket.
//!
//! The library holds the upload pipeline's logic: the storage configuration and
//! its endpoint, the settings a client is built from, the one-pass parser over
//! multipart parts, the derivation of object keys and the handler's state
//! machine that turns each step's outcome into the next step or a response.
pub mod config;
pub mod parser;
pub mod client;
pub mod handler;

//! A minimal static-file HTTP server core: header framing, request-line
//! parsing, path resolution against a document root, and response synthesis.
//! All connection and file I/O lives outside this crate; apart from the
//! content-type guess, these functions are pure computations on byte vectors.

pub mod bytes;
pub mod frame;
pub mod request;
pub mod resolve;
pub mod response;
pub mod handler;

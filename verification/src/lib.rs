//! A small TCP proxy: HTTP/1.1 detection of a stream's first bytes,
//! round-robin selection of upstream peers, connection permits and
//! per-connection deadlines.
pub mod error;
pub mod detect;
pub mod middleware;
pub mod proxy;
pub mod net;

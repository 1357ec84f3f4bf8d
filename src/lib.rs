//! A small HTTP/1.1 server core: request-head parsing, route dispatch and
//! response serialisation over plain bytes. Socket and file I/O are left to
//! the caller, which performs the `Action` that `router::dispatch` decides.

pub mod bytes;
pub mod gzip;
pub mod laws;
pub mod request;
pub mod response;
pub mod router;
pub mod tokens;

//! A minimal HTTP/1.x server library: request-line and header parsing,
//! route matching with positional and catch-all path parameters, dispatch
//! planning, and response serialization. The parsing, matching, and
//! serialization logic carries contracts that pin down its behaviour; the
//! surrounding socket I/O lives outside this crate.

pub mod http_structs;
pub mod router;
pub mod server;
pub mod status;
pub mod strutil;

//! A minimal HTTP server core: a request dispatcher over a fixed routing
//! table, a file-stream responder, a proxy composer that chains a synthetic
//! text chunk with a relayed upstream body, and a JSON echo endpoint that
//! inserts a marker key into an incoming document.
//!
//! The library holds the routing, composition and mutation logic with its
//! contracts; the transport (listening, file and socket I/O) lives outside.

pub mod dispatch;
pub mod http;
pub mod json;
pub mod proxy;
pub mod stream;
pub mod text;

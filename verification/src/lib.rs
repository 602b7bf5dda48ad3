//! The engine of a small HTTP/1.1 server: it decodes a request from the bytes
//! of one read, finds the route for it, runs the middlewares around the
//! route's handler, and serializes the response. Reading and writing on
//! connections is left to the caller.

pub mod codec;
pub mod error;
pub mod fields;
pub mod handler;
pub mod http;
pub mod middleware;
pub mod middlewarewrapper;
pub mod middlewares;
pub mod pattern;
pub mod router;
pub mod server;
pub mod state;
pub mod text;

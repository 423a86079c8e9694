//! A minimal HTTP/1.1 server library: request-line parsing, a fixed
//! three-way router, response construction and rendering, and a model of
//! the bounded worker pool that dispatches accepted connections.
//!
//! All I/O (listening, reading, writing, the worker threads themselves)
//! lives outside this library; the functions here compute every decision
//! the server makes, with contracts stating exactly what they return.

pub mod http;
pub mod pool;
pub mod router;
pub mod status;
pub mod text;

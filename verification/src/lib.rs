//! Sans-I/O core of a self-hosted runner bootstrap: the requests of the
//! credential exchange, the decoding of their answers, and the state machine
//! that orders them. The caller owns the transport: it sends each request this
//! library describes and hands back what came of it.

pub mod config;
pub mod error;
pub mod http;
pub mod json;
pub mod pipeline;
pub mod steps;
pub mod token;

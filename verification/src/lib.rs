//! Verified core of an HTTP front end for a code-execution service.
//!
//! The library narrows loosely-typed wire requests into the closed
//! vocabulary of an external execution sandbox, funnels every failure
//! into one error taxonomy with a fixed JSON rendering, decides the
//! dispatch pipeline for each endpoint, and pins down the header policy
//! of the static-asset middleware chain and the optional CORS gate.
//! Network I/O, the HTTP server, and the sandbox itself live outside.

pub mod config;
pub mod cors;
pub mod dispatch;
pub mod error;
pub mod http;
pub mod middleware;
pub mod json;
pub mod sandbox;
pub mod text;
pub mod translate;
pub mod wire;

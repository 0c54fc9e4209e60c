//! A minimal concurrent TCP server core: each accepted connection gets one
//! best-effort read, then one response reporting the host's memory figures.
//!
//! This crate holds the verified core — the decimal rendering, the response
//! builder and its `Content-Length` guarantee, the per-connection handler
//! with its two phases, and the listener's decisions. The sockets, threads
//! and console output sit outside and drive these functions.

pub mod digits;
pub mod handler;
pub mod request;
pub mod response;
pub mod server;
pub mod stats;

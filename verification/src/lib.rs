//! Verified core of a small collection of networked Rust programs: a fixed-size
//! thread pool scheduler, an HTTP hello-world responder, WebSocket echo
//! sessions, and the text-producing helpers of a set of language exercises.

pub mod exercises;
pub mod http;
pub mod pool;
pub mod text;
pub mod websocket;

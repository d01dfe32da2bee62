//! A decoupled streaming HTTP/1.1 server core with WebSocket upgrades.
//!
//! Accepted requests are not processed in line: each one is handed to an
//! external consumer that pulls requests on demand, streams the request
//! body in, and streams response parts out, or upgrades the request to a
//! full-duplex WebSocket connection. This crate holds the verified logic
//! of that handoff — the request metadata, the per-request state and its
//! at-most-once capabilities, the response builder, the demand-driven
//! request queue, the body pump's decisions, and the WebSocket handshake
//! and frame layer. The network transport around it lives outside.

pub mod config;
pub mod request;
pub mod response;
pub mod server;
pub mod websocket;

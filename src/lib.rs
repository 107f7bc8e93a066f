//! A local development file server with live reload: request routing, content
//! selection, the WebSocket handshake and the per-session reload protocol.

pub mod text;
pub mod routing;
pub mod content;
pub mod handshake;
pub mod session;
pub mod broadcast;
pub mod watch;

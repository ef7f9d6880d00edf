//! Message bridge between a browser extension's native-messaging host and a
//! desktop application: stdio framing, connection retry, the WebSocket
//! listener's life cycle, response correlation and the pause-on-shutdown
//! sequence, with their contracts.

pub mod bridge;
pub mod config;
pub mod desktop;
pub mod framing;
pub mod host;
pub mod json;
pub mod listener;
pub mod migrations;
pub mod retry;
pub mod shutdown;
pub mod text;
pub mod thumbnail;

//! Local companion service core: short-lived pairing sessions announced as QR
//! codes, a single-flight server lifecycle guard, and a WebSocket control
//! protocol normalizer with heartbeat-based liveness detection.

pub mod gateway;
pub mod host;
pub mod lifecycle;
pub mod model;
pub mod protocol;
pub mod qr;
pub mod session;
pub mod text;

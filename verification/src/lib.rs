//! Telemetry bridge engine: subscribes to configured bus topics, resolves each
//! topic's message schema, provisions one outbound visualization channel per
//! topic, and forwards bus samples to that channel with translated timestamps.
//!
//! The engine is split into pure, verified decision logic (this crate) and a
//! thin asynchronous runtime around it. The verified side plans channels from
//! the static configuration, classifies sample encodings, extracts payloads,
//! and steps each topic's forwarding state machine; the runtime performs the
//! bus and websocket calls that the plans and actions describe.

pub mod base64;
pub mod bridge;
pub mod config;
pub mod encoding;
pub mod errors;
pub mod forwarder;
pub mod messages;
pub mod schema;
pub mod tailscale;

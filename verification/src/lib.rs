//! Verified core of the Love-Unlimited memory hub integration for Tabby.
//!
//! The library decides what is stored in the hub, which HTTP request each
//! operation makes and how the hub's replies are read; the caller drives the
//! network.
pub mod client;
pub mod config;
pub mod event_bridge;
pub mod laws;
pub mod memory_bridge;
pub mod metadata;
pub mod models;
pub mod text;

pub use client::HubClient;
pub use event_bridge::HubEventLogger;
pub use memory_bridge::MemoryBridge;
pub use models::{HubConfig, HubError, HubFeatures, HubResult};

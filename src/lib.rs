//! Ingestion core of a chat-bot gateway client: frame decoding, the tiered
//! message store, the connection state machine and event dispatch planning,
//! with the chat-completion message handling, prompts and node-graph metadata
//! that sit around it.
//!
//! Network round trips, timers and task spawning are left to the caller: the
//! library decides, the caller acts and reports back.

pub mod text;
pub mod url_utils;
pub mod json;
pub mod models;
pub mod decoder;
pub mod record;
pub mod store;
pub mod connection;
pub mod adapter;
pub mod llm;
pub mod node;
pub mod agents;
pub mod prompt;
pub mod config;
pub mod preview;
pub mod graph;

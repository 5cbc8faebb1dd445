//! Conversation-state and access-control engine for a chat relay.
//!
//! The engine keeps a durable store of sessions, message history,
//! whitelisted users and admins, resolves external conversation ids to
//! sessions, maintains a bounded recent-context window, and enforces a
//! two-tier authorization model. SQL statement text for the two supported
//! relational backends is built here as well, so that dialect differences
//! (placeholder style, identity retrieval, upsert syntax) stay isolated in
//! one place.

pub mod bootstrap;
pub mod laws;
pub mod messages;
pub mod policy;
pub mod registry;
pub mod rows;
pub mod seq_facts;
pub mod sessions;
pub mod sql;
pub mod store;

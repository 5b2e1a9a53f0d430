//! Watches which remote users are actively connected to a host and turns
//! successive observations of "who is connected from where" into a stream of
//! Login/Logout events, delivered to a chat webhook.
//!
//! The core is a snapshot-diff-notify engine: a snapshot builder that
//! normalizes raw session records into a multiset of occupancy pairs, a diff
//! engine that compares two snapshots, a poll scheduler that owns the single
//! retained baseline snapshot, and a renderer for the outbound webhook
//! payload. Configuration resolution and the parser for the host's
//! login-user listing live beside them.

pub mod app_config;
pub mod app_data;
pub mod diff;
pub mod notify;
pub mod scheduler;
pub mod snapshot;
pub mod text;
pub mod user_query;
pub mod wts_array;
pub mod wts_wrapper;

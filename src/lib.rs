//! Chat event log: the event model of a chat, its ordered log with indices,
//! expiry and metrics, and the content model of the messages it carries.

pub mod ids;
pub mod message_content;
pub mod events;
pub mod metrics;
pub mod chat_event_internal;
pub mod event_log;
pub mod threads;
pub mod expiry;
pub mod public_communities;
pub mod prize;
pub mod jobs;
pub mod validation;
pub mod codec;
pub mod group_import;
pub mod queries;

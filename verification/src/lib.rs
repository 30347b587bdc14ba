//! Dispatch of push notifications for the events that pass through a relay:
//! who is relevant to an event, who has been notified already, who is muted,
//! and what is sent to whose devices and recorded, once per pubkey and event.

pub mod dispatch;
pub mod error;
pub mod laws;
pub mod message;
pub mod note;
pub mod notification_manager;
pub mod push_notify;
pub mod records;
pub mod relevance;
pub mod rows;
pub mod statements;
pub mod status;
pub mod store;
pub mod string_set;

//! Notification routing and preference engine, with the access scopes of API keys.
//!
//! Domain events are matched against the recipient's notification settings to
//! decide which channels receive them, rendered into localized messages and
//! handed on as independently retryable jobs.

pub mod dispatch;
pub mod job;
pub mod messages;
pub mod notification_event;
pub mod primitives;
pub mod scope;
pub mod settings;
pub mod text;
pub mod translations;

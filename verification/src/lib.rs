//! Routing and rendering of source-control push notifications for a chat room.
//!
//! An inbound push payload is normalised into a canonical event, the event's
//! repository is resolved to a destination room through a static table, and
//! the event is rendered as a plain-text body and an HTML body. Sending the
//! rendered message is left to the caller; this crate decides what is sent,
//! where, and how every outcome is reported.

pub mod authors;
pub mod config;
pub mod dispatch;
pub mod event;
pub mod markup;
pub mod message;
pub mod payload;
pub mod pipeline;

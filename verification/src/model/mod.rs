//! The data model: message kinds, messages, sessions, timestamps and the
//! message filter.

pub mod filter;
pub mod message;

pub use self::filter::MessageFilter;
pub use self::message::{
    clone_opt, message_views, ts_le, Message, MessageType, MessageView, Session, SessionStatus,
    SessionView, Timestamp,
};

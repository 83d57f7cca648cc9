//! Parts of the screen.

pub mod message_list;
pub mod status_bar;

//! Session transcripts written as JSON Lines: reading their lines and
//! finding the transcript files.

pub mod parser;
pub mod session;

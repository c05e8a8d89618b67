//! The message format, one module for each part of a message.

pub mod header;

//! Attachments: key-value pairs of additional context on an error.
pub mod attach;
pub mod attached;
pub mod attachment;

//! Error reports with typed contexts, chained causes and key-value attachments.
//!
//! A [`StructuredError`] is a chain of layers. Each layer holds what its
//! context reads as, a diagnostic code made from the context's type, and the
//! attachments added to it; below it lies the error it was made from.
//! [`Report`] wraps a [`StructuredError`] and keeps the current context with
//! its type.
pub mod attachments;
pub mod context;
pub mod extensions;
pub mod helpers;
pub mod prelude;
pub mod render;
pub mod report;
pub mod structured_error;
pub mod text;

pub use attachments::attach::{Attach, Attachable};
pub use attachments::attached::Attached;
pub use attachments::attachment::Attachment;
pub use context::ErrorContext;
pub use extensions::ResultExt;
pub use helpers::test_helpers::{strip_ansi_codes, InnerError, OuterError, UnitError};
pub use helpers::type_helpers::{code_from_names, short_code};
pub use render::no_color_requested;
pub use report::Report;
pub use structured_error::StructuredError;

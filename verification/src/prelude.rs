//! Common imports re-exported for convenience.
pub use crate::attachments::attach::{Attach, Attachable};
pub use crate::attachments::attached::Attached;
pub use crate::attachments::attachment::Attachment;
pub use crate::context::ErrorContext;
pub use crate::extensions::ResultExt;
pub use crate::helpers::test_helpers::{strip_ansi_codes, InnerError, OuterError, UnitError};
pub use crate::helpers::type_helpers::{code_from_names, short_code};
pub use crate::report::Report;
pub use crate::structured_error::StructuredError;

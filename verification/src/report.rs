//! Typed error report wrapping a [`StructuredError`].
use vstd::prelude::*;
use crate::context::ErrorContext;
use crate::structured_error::{Frame, StructuredError, fresh_frame};

verus! {

/// Typed error report that wraps a [`StructuredError`] and keeps its current
/// context with its type.
pub struct Report<T> {
    /// The underlying type-erased error.
    inner: StructuredError,
    /// The current context.
    context: T,
}

impl<T: ErrorContext> Report<T> {
    /// The current context.
    pub closed spec fn context_value(&self) -> T {
        self.context
    }

    /// The underlying type-erased error.
    pub closed spec fn error(&self) -> StructuredError {
        self.inner
    }
}

impl<T> View for Report<T> {
    type V = Seq<Frame>;

    closed spec fn view(&self) -> Seq<Frame> {
        self.inner@
    }
}

/// Whether `report` is what [`Report::new`] makes of `context`: one fresh
/// layer for it, with the context kept.
pub open spec fn made_from<T: ErrorContext>(report: Report<T>, context: T) -> bool {
    &&& report.context_value() == context
    &&& report@.len() == 1
    &&& fresh_frame(report@[0], context)
}

/// Whether `after` is what [`Report::change_context`] makes of `before`
/// with `context`: a fresh layer for `context` on top of all of `before`.
pub open spec fn wrapped_in<T: ErrorContext, U: ErrorContext>(
    before: Report<T>,
    after: Report<U>,
    context: U,
) -> bool {
    &&& after.context_value() == context
    &&& fresh_frame(after@[0], context)
    &&& after@.len() == before@.len() + 1
    &&& after@.drop_first() == before@
}

impl<T: ErrorContext> Report<T> {
    /// Create a report from the given error context with no source.
    pub fn new(context: T) -> (report: Self)
        ensures
            made_from(report, context),
    {
        let inner = StructuredError::layered(&context, None);
        Report { inner, context }
    }

    /// Get the current context.
    #[must_use]
    pub fn current_context(&self) -> (context: &T)
        ensures
            *context == self.context_value(),
    {
        &self.context
    }

    /// Wrap this report as the source of a new context.
    pub fn change_context<U: ErrorContext>(self, new_context: U) -> (report: Report<U>)
        ensures
            wrapped_in(self, report, new_context),
    {
        let inner = self.inner.wrapped(&new_context);
        Report { inner, context: new_context }
    }

    /// The underlying type-erased error.
    pub fn as_error(&self) -> (error: &StructuredError)
        ensures
            error@ == self@,
    {
        &self.inner
    }

    /// Adds `attachment` to the current layer.
    pub(crate) fn push_attachment(&mut self, attachment: crate::attachments::attachment::Attachment)
        ensures
            final(self).context_value() == old(self).context_value(),
            final(self)@ == crate::structured_error::with_attachment(old(self)@, attachment@),
    {
        self.inner.push_attachment(attachment);
    }
}

impl<T: ErrorContext> core::ops::Deref for Report<T> {
    type Target = StructuredError;

    fn deref(&self) -> (error: &StructuredError)
        ensures
            error@ == self@,
    {
        &self.inner
    }
}

impl<T: ErrorContext> From<Report<T>> for StructuredError {
    fn from(report: Report<T>) -> (error: StructuredError)
        ensures
            error@ == report@,
    {
        report.inner
    }
}

impl<T: ErrorContext> From<T> for Report<T> {
    fn from(error: T) -> (report: Report<T>)
        ensures
            report.context_value() == error,
            report@.len() == 1,
            fresh_frame(report@[0], error),
    {
        Report::new(error)
    }
}

/// A report made from a context is not one fixed value: its diagnostic code
/// comes from the context's `Debug` text, which no contract here pins down.
/// `from` states what holds of it instead.
impl<T: ErrorContext> vstd::std_specs::convert::FromSpecImpl<T> for Report<T> {
    open spec fn obeys_from_spec() -> bool {
        false
    }

    closed spec fn from_spec(error: T) -> Report<T> {
        choose|report: Report<T>|
            report.context_value() == error && report@.len() == 1 && fresh_frame(report@[0], error)
    }
}

impl<T: ErrorContext> vstd::std_specs::convert::FromSpecImpl<Report<T>> for StructuredError {
    open spec fn obeys_from_spec() -> bool {
        true
    }

    closed spec fn from_spec(report: Report<T>) -> StructuredError {
        report.inner
    }
}

} // verus!

//! Extension traits for converting and attaching context to [`Report`].
use vstd::prelude::*;
use crate::context::ErrorContext;
use crate::report::{Report, made_from, wrapped_in};
use crate::structured_error::fresh_frame;

verus! {

/// Convert fallible results into [`Report`] by changing the error context.
pub trait ResultExt<T>: Sized {
    /// Wrap the error in a [`Report`] with the given context.
    fn change_context<C: ErrorContext>(self, context: C) -> Result<T, Report<C>>;
}

impl<T, E: ErrorContext> ResultExt<T> for Result<T, E> {
    /// A success value passes through; an error `e` becomes what
    /// `Report::new(e).change_context(context)` gives: a report whose current
    /// context is `context`, over a layer for `e`.
    fn change_context<C: ErrorContext>(self, context: C) -> (result: Result<T, Report<C>>)
        ensures
            self is Ok ==> result is Ok && result->Ok_0 == self->Ok_0,
            self is Err ==> result is Err && (exists|first: Report<E>|
                made_from(first, self->Err_0) && wrapped_in(first, result->Err_0, context)),
            self is Err ==> result is Err && {
                let report = result->Err_0;
                &&& report.context_value() == context
                &&& report@.len() == 2
                &&& fresh_frame(report@[0], context)
                &&& fresh_frame(report@[1], self->Err_0)
            },
    {
        match self {
            Ok(value) => Ok(value),
            Err(error) => {
                let first = Report::new(error);
                let ghost made = first;
                let report = first.change_context(context);
                assert(made_from(made, self->Err_0) && wrapped_in(made, report, context));
                Err(report)
            },
        }
    }
}

} // verus!

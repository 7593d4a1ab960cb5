//! Trait for attaching additional context to errors and results.
use vstd::prelude::*;
use crate::attachments::attachment::{Attachment, PATH_KEY};
use crate::context::ErrorContext;
use crate::report::Report;
use crate::structured_error::{StructuredError, lemma_attachment_adds_line, with_attachment};

verus! {

/// Whether `after` is `before` with one attachment added to the current
/// layer of the error it holds: named with what `name` converts into, with
/// the value `text`. A value that takes no attachments stays as it is.
pub open spec fn attaches_text<S: Attachable, N: Into<String>>(
    before: S,
    after: S,
    name: N,
    text: Seq<char>,
) -> bool {
    if before.takes_attachments() {
        exists|n: String| call_ensures(N::into, (name,), n) && S::attached_to(before, after, (n@, text))
    } else {
        after == before
    }
}

/// What `attach(name, value)` makes of `before`: [`attaches_text`] with the
/// text that `value` displays as.
pub open spec fn attaches<S: Attachable, N: Into<String>, V: core::fmt::Display>(
    before: S,
    after: S,
    name: N,
    value: V,
) -> bool {
    if before.takes_attachments() {
        exists|v: String|
            vstd::string::to_string_from_display_ensures(&value, v) && attaches_text(
                before,
                after,
                name,
                v@,
            )
    } else {
        after == before
    }
}

/// A name given as a string slice is attached as exactly that text.
pub proof fn lemma_attaches_text_str_name<S: Attachable>(
    before: S,
    after: S,
    name: &str,
    text: Seq<char>,
)
    requires
        before.takes_attachments(),
        attaches_text(before, after, name, text),
    ensures
        S::attached_to(before, after, (name@, text)),
{
    let n = choose|n: String| call_ensures(<&str as Into<String>>::into, (name,), n) && S::attached_to(before, after, (n@, text));
    assert(n@ == name@);
}

/// A value that may hold an error which attachments go to.
pub trait Attachable: Sized {
    /// Whether this value holds an error that takes attachments.
    spec fn takes_attachments(&self) -> bool;

    /// Whether `after` is `before` with `attachment` added to the current
    /// layer of the error it holds.
    spec fn attached_to(before: Self, after: Self, attachment: (Seq<char>, Seq<char>)) -> bool;

    /// Whether this value holds an error that takes attachments.
    fn accepts_attachments(&self) -> (accepts: bool)
        ensures
            accepts == self.takes_attachments(),
    ;

    /// Add `attachment` to the current layer of the error this value holds.
    fn push_attachment(&mut self, attachment: Attachment)
        requires
            old(self).takes_attachments(),
        ensures
            Self::attached_to(*old(self), *final(self), attachment@),
    ;
}

/// Attach additional context to an error or a result containing one.
pub trait Attach: Attachable {
    /// Attach a name and value.
    #[must_use]
    fn attach<N: Into<String>, V: core::fmt::Display>(self, name: N, value: V) -> (out: Self)
        ensures
            attaches(self, out, name, value),
    {
        let mut this = self;
        if this.accepts_attachments() {
            let a = Attachment::new(name, value);
            let ghost view = a@;
            this.push_attachment(a);
            assert(attaches_text(self, this, name, view.1));
        }
        this
    }

    /// Attach a name and lazily evaluated value; the value is computed only
    /// when there is an error to attach it to.
    #[must_use]
    fn attach_with<N: Into<String>, D: core::fmt::Display, F: FnOnce() -> D>(
        self,
        name: N,
        value: F,
    ) -> (out: Self)
        requires
            self.takes_attachments() ==> value.requires(()),
        ensures
            !self.takes_attachments() ==> out == self,
            self.takes_attachments() ==> exists|d: D|
                value.ensures((), d) && attaches(self, out, name, d),
    {
        let mut this = self;
        if this.accepts_attachments() {
            let a = Attachment::with(name, value);
            let ghost view = a@;
            let ghost text = a.value_string();
            this.push_attachment(a);
            proof {
                let d = choose|d: D|
                    value.ensures((), d) && vstd::string::to_string_from_display_ensures(&d, text);
                assert(attaches_text(self, this, name, view.1));
                assert(attaches(self, this, name, d));
            }
        }
        this
    }

    /// Attach a path, given as its text, under the name `path`.
    #[must_use]
    fn attach_path(self, path: &str) -> (out: Self)
        ensures
            attaches_text(self, out, PATH_KEY, path@),
            self.takes_attachments() ==> Self::attached_to(self, out, (PATH_KEY@, path@)),
    {
        let mut this = self;
        if this.accepts_attachments() {
            let a = Attachment::path_text(path);
            let ghost view = a@;
            this.push_attachment(a);
            assert(attaches_text(self, this, PATH_KEY, view.1));
        }
        this
    }
}

/// Every value that may hold an error takes attachments through [`Attach`].
impl<S: Attachable> Attach for S {

}

/// Attaching to a report keeps its current context, and what the current
/// layer reads as: if the context read as the layer before, it still does.
pub proof fn lemma_attach_keeps_context<T: ErrorContext>(
    before: Report<T>,
    after: Report<T>,
    attachment: (Seq<char>, Seq<char>),
)
    requires
        before@.len() >= 1,
        before.context_value().reads_as(before@[0].message),
        <Report<T> as Attachable>::attached_to(before, after, attachment),
    ensures
        after.context_value() == before.context_value(),
        after@.len() == before@.len(),
        after.context_value().reads_as(after@[0].message),
{
    lemma_attachment_adds_line(before@, attachment);
}

impl Attachable for StructuredError {
    open spec fn takes_attachments(&self) -> bool {
        true
    }

    open spec fn attached_to(before: Self, after: Self, attachment: (Seq<char>, Seq<char>)) -> bool {
        after@ == with_attachment(before@, attachment)
    }

    fn accepts_attachments(&self) -> (accepts: bool) {
        true
    }

    fn push_attachment(&mut self, attachment: Attachment) {
        StructuredError::push_attachment(self, attachment);
    }
}

impl<T: ErrorContext> Attachable for Report<T> {
    open spec fn takes_attachments(&self) -> bool {
        true
    }

    open spec fn attached_to(before: Self, after: Self, attachment: (Seq<char>, Seq<char>)) -> bool {
        &&& after.context_value() == before.context_value()
        &&& after@ == with_attachment(before@, attachment)
    }

    fn accepts_attachments(&self) -> (accepts: bool) {
        true
    }

    fn push_attachment(&mut self, attachment: Attachment) {
        Report::push_attachment(self, attachment);
    }
}

impl<T, A: Attachable> Attachable for Result<T, A> {
    /// Only an error takes attachments; a success value is left as it is.
    open spec fn takes_attachments(&self) -> bool {
        match self {
            Ok(_) => false,
            Err(error) => error.takes_attachments(),
        }
    }

    open spec fn attached_to(before: Self, after: Self, attachment: (Seq<char>, Seq<char>)) -> bool {
        match (before, after) {
            (Err(b), Err(a)) => A::attached_to(b, a, attachment),
            _ => false,
        }
    }

    fn accepts_attachments(&self) -> (accepts: bool) {
        match self {
            Ok(_) => false,
            Err(error) => error.accepts_attachments(),
        }
    }

    fn push_attachment(&mut self, attachment: Attachment) {
        match self {
            Ok(_) => {},
            Err(error) => error.push_attachment(attachment),
        }
    }
}

} // verus!

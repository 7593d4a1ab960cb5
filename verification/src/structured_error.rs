//! Type-erased error with chained sources, attachments, and diagnostics.
use vstd::prelude::*;
use crate::attachments::attached::{Attached, attached_text};
use crate::attachments::attachment::{Attachment, attachment_text};
use crate::context::ErrorContext;
use crate::helpers::type_helpers::{short_code, short_code_spec};

verus! {

/// One layer of an error chain, as the contracts see it: what its context
/// reads as, its diagnostic code, and the attachments added on this layer.
pub struct Frame {
    pub message: Seq<char>,
    pub code: Seq<char>,
    pub attachments: Seq<(Seq<char>, Seq<char>)>,
}

/// How one layer reads: its message, then its attachments.
pub open spec fn frame_text(f: Frame) -> Seq<char> {
    f.message + attached_text(f.attachments)
}

/// How the causes of an error read, one `Caused by:` line each, outermost
/// first.
pub open spec fn causes_text(causes: Seq<Frame>) -> Seq<char>
    decreases causes.len(),
{
    if causes.len() == 0 {
        Seq::empty()
    } else {
        "\n  Caused by: "@ + frame_text(causes[0]) + causes_text(causes.drop_first())
    }
}

/// How a whole chain reads in the debug form: the first layer, then each
/// cause.
pub open spec fn chain_text(frames: Seq<Frame>) -> Seq<char> {
    frame_text(frames[0]) + causes_text(frames.drop_first())
}

/// Whether `f` is the layer that a fresh error gets from `context`: it reads
/// as the context, its code is made from the context's type path and `Debug`
/// text, and it has no attachments.
pub open spec fn fresh_frame<T: ErrorContext>(f: Frame, context: T) -> bool {
    &&& context.reads_as(f.message)
    &&& exists|debug: Seq<char>|
        context.debugs_as(debug) && f.code == short_code_spec(context.type_path_spec(), debug)
    &&& f.attachments.len() == 0
}

/// The chain `frames` once `attachment` is added to its first layer.
pub open spec fn with_attachment(frames: Seq<Frame>, attachment: (Seq<char>, Seq<char>)) -> Seq<Frame>
    recommends
        frames.len() > 0,
{
    frames.update(
        0,
        Frame {
            message: frames[0].message,
            code: frames[0].code,
            attachments: frames[0].attachments.push(attachment),
        },
    )
}

/// How a layer reads starts with the whole of what its context reads as, and
/// the rest is its attachment lines.
pub proof fn lemma_frame_text_parts(f: Frame)
    ensures
        frame_text(f).len() == f.message.len() + attached_text(f.attachments).len(),
        frame_text(f).take(f.message.len() as int) == f.message,
        frame_text(f).skip(f.message.len() as int) == attached_text(f.attachments),
{
    assert(frame_text(f).take(f.message.len() as int) =~= f.message);
    assert(frame_text(f).skip(f.message.len() as int) =~= attached_text(f.attachments));
}

/// A context gets the same diagnostic code whichever call makes its layer:
/// two fresh layers for one context whose `Debug` text is determined carry
/// the same code, and no attachments.
pub proof fn lemma_fresh_frames_share_code<T: ErrorContext>(f1: Frame, f2: Frame, context: T)
    requires
        fresh_frame(f1, context),
        fresh_frame(f2, context),
        forall|a: Seq<char>, b: Seq<char>|
            context.debugs_as(a) && context.debugs_as(b) ==> a == b,
    ensures
        f1.code == f2.code,
        f1.attachments == f2.attachments,
{
    let d1 = choose|d: Seq<char>|
        context.debugs_as(d) && f1.code == short_code_spec(context.type_path_spec(), d);
    let d2 = choose|d: Seq<char>|
        context.debugs_as(d) && f2.code == short_code_spec(context.type_path_spec(), d);
    assert(d1 == d2);
    assert(f1.attachments =~= f2.attachments);
}

/// The layer made for a context carries the context's own short code: the
/// code that `short_code` gives that context, when its `Debug` text is
/// determined.
pub proof fn lemma_fresh_frame_has_short_code<T: ErrorContext>(
    f: Frame,
    context: T,
    code: Seq<char>,
)
    requires
        fresh_frame(f, context),
        exists|d: Seq<char>|
            context.debugs_as(d) && code == short_code_spec(context.type_path_spec(), d),
        forall|a: Seq<char>, b: Seq<char>|
            context.debugs_as(a) && context.debugs_as(b) ==> a == b,
    ensures
        f.code == code,
{
    let d1 = choose|d: Seq<char>|
        context.debugs_as(d) && f.code == short_code_spec(context.type_path_spec(), d);
    let d2 = choose|d: Seq<char>|
        context.debugs_as(d) && code == short_code_spec(context.type_path_spec(), d);
    assert(d1 == d2);
}

/// An error without a source reads the same in its full form as in its
/// short form.
pub proof fn lemma_single_layer_reads_alike(frames: Seq<Frame>)
    requires
        frames.len() == 1,
    ensures
        chain_text(frames) == frame_text(frames[0]),
{
    assert(causes_text(frames.drop_first()) == Seq::<char>::empty());
    assert(frame_text(frames[0]) + Seq::<char>::empty() =~= frame_text(frames[0]));
}

/// Wrapping an error under a new context: the full form of the result is
/// the new layer, then `Caused by:` and the full form of the wrapped error.
pub proof fn lemma_wrapped_reads_over_source(outer: Seq<Frame>, inner: Seq<Frame>)
    requires
        inner.len() >= 1,
        outer.len() == inner.len() + 1,
        outer.drop_first() == inner,
    ensures
        chain_text(outer) == frame_text(outer[0]) + "\n  Caused by: "@ + chain_text(inner),
{
    assert(frame_text(outer[0]) + ("\n  Caused by: "@ + frame_text(inner[0]) + causes_text(
        inner.drop_first(),
    )) =~= frame_text(outer[0]) + "\n  Caused by: "@ + (frame_text(inner[0]) + causes_text(
        inner.drop_first(),
    )));
}

/// Adding an attachment adds one line, `\n▷ name: value`, to how the
/// current layer reads; what the layer reads as, its code, and every cause
/// stay as they were.
pub proof fn lemma_attachment_adds_line(frames: Seq<Frame>, attachment: (Seq<char>, Seq<char>))
    requires
        frames.len() >= 1,
    ensures
        with_attachment(frames, attachment).len() == frames.len(),
        with_attachment(frames, attachment)[0].message == frames[0].message,
        with_attachment(frames, attachment)[0].code == frames[0].code,
        with_attachment(frames, attachment).drop_first() == frames.drop_first(),
        frame_text(with_attachment(frames, attachment)[0]) == frame_text(frames[0]) + "\n▷ "@
            + attachment_text(attachment),
{
    let after = with_attachment(frames, attachment);
    assert(after.drop_first() =~= frames.drop_first());
    assert(after[0].attachments.drop_last() =~= frames[0].attachments);
    assert(frame_text(after[0]) =~= frame_text(frames[0]) + "\n▷ "@ + attachment_text(attachment));
}

/// Type-erased error with chained sources, attachments, and diagnostic rendering.
pub struct StructuredError {
    /// What the context reads as.
    message: String,
    /// Pre-captured diagnostic code from the original typed context.
    code: String,
    /// Key-value pairs of additional context.
    attached: Attached,
    /// Underlying error in the source chain.
    source: Option<Box<StructuredError>>,
}

impl StructuredError {
    /// The first layer of this error.
    pub closed spec fn frame(&self) -> Frame {
        Frame { message: self.message@, code: self.code@, attachments: self.attached@ }
    }

    /// The layers of this error: its own first, then those of its source.
    pub closed spec fn frames(&self) -> Seq<Frame>
        decreases self,
    {
        seq![self.frame()] + match self.source {
            Some(source) => source.frames(),
            None => Seq::empty(),
        }
    }
}

impl View for StructuredError {
    type V = Seq<Frame>;

    closed spec fn view(&self) -> Seq<Frame> {
        self.frames()
    }
}

impl StructuredError {
    proof fn lemma_view(&self)
        ensures
            self@.len() >= 1,
            self@[0] == self.frame(),
            self.source is None ==> self@.len() == 1,
            self.source matches Some(source) ==> self@.drop_first() == source@,
    {
        match self.source {
            Some(source) => {
                assert(self@.drop_first() =~= source@);
            },
            None => {},
        }
    }

    /// An error is never empty: it has at least its own layer.
    pub proof fn lemma_has_layer(&self)
        ensures
            self@.len() >= 1,
    {
        self.lemma_view();
    }

    /// A new first layer for `context`, on top of `source`.
    pub(crate) fn layered<T: ErrorContext>(context: &T, source: Option<Box<StructuredError>>) -> (e: Self)
        ensures
            fresh_frame(e@[0], *context),
            source is None ==> e@.len() == 1,
            source matches Some(s) ==> e@.len() == s@.len() + 1 && e@.drop_first() == s@,
    {
        let code = short_code(context);
        let e = StructuredError { message: context.message(), code, attached: Attached::new(), source };
        proof {
            e.lemma_view();
        }
        e
    }

    /// Create from any error context, capturing its diagnostic code.
    pub fn new<T: ErrorContext>(context: T) -> (e: Self)
        ensures
            e@.len() == 1,
            fresh_frame(e@[0], context),
    {
        Self::layered(&context, None)
    }

    /// Build an error from its parts: what its current context reads as, its
    /// diagnostic code, the attachments on it, and its source.
    pub fn from_parts(
        message: String,
        code: String,
        attached: Attached,
        source: Option<StructuredError>,
    ) -> (e: Self)
        ensures
            e@[0] == (Frame { message: message@, code: code@, attachments: attached@ }),
            source is None ==> e@.len() == 1,
            source matches Some(s) ==> e@.len() == s@.len() + 1 && e@.drop_first() == s@,
    {
        let source = match source {
            Some(s) => Some(Box::new(s)),
            None => None,
        };
        let e = StructuredError { message, code, attached, source };
        proof {
            e.lemma_view();
        }
        e
    }

    /// Wrap this error as the source of a new context, held by reference.
    pub(crate) fn wrapped<T: ErrorContext>(self, new_context: &T) -> (e: StructuredError)
        ensures
            fresh_frame(e@[0], *new_context),
            e@.len() == self@.len() + 1,
            e@.drop_first() == self@,
    {
        Self::layered(new_context, Some(Box::new(self)))
    }

    /// Wrap this error as the source of a new context.
    #[must_use]
    pub fn change_context<T: ErrorContext>(self, new_context: T) -> (e: StructuredError)
        ensures
            fresh_frame(e@[0], new_context),
            e@.len() == self@.len() + 1,
            e@.drop_first() == self@,
    {
        self.wrapped(&new_context)
    }

    /// Get the current context, as it reads.
    #[must_use]
    pub fn current_context(&self) -> (context: &str)
        ensures
            context@ == self@[0].message,
    {
        proof {
            self.lemma_view();
        }
        self.message.as_str()
    }

    /// The underlying error in the source chain, if any.
    pub fn source(&self) -> (source: Option<&StructuredError>)
        ensures
            source is None <==> self@.len() == 1,
            source matches Some(s) ==> s@ == self@.drop_first(),
    {
        proof {
            self.lemma_view();
        }
        match &self.source {
            Some(source) => Some(&**source),
            None => None,
        }
    }

    /// The diagnostic code of the current context.
    pub fn code(&self) -> (code: Option<&str>)
        ensures
            code matches Some(c) && c@ == self@[0].code,
    {
        proof {
            self.lemma_view();
        }
        Some(self.code.as_str())
    }

    /// The attachments on the current layer.
    pub fn attached(&self) -> (attached: &Attached)
        ensures
            attached@ == self@[0].attachments,
    {
        proof {
            self.lemma_view();
        }
        &self.attached
    }

    /// How the error reads: the current context, then its attachments, each
    /// on a line of its own.
    pub fn to_string(&self) -> (text: String)
        ensures
            text@ == frame_text(self@[0]),
            text@.take(self@[0].message.len() as int) == self@[0].message,
            text@.skip(self@[0].message.len() as int) == attached_text(self@[0].attachments),
    {
        proof {
            self.lemma_view();
            lemma_frame_text_parts(self@[0]);
        }
        let mut text = self.message.clone();
        let lines = self.attached.to_string();
        text.append(lines.as_str());
        text
    }

    /// Appends a `Caused by:` line for each error in the source chain.
    fn push_causes(&self, out: &mut String)
        ensures
            final(out)@ == old(out)@ + causes_text(self@.drop_first()),
        decreases self,
    {
        proof {
            self.lemma_view();
        }
        match &self.source {
            Some(source) => {
                proof {
                    source.lemma_view();
                }
                let line = source.to_string();
                out.append("\n  Caused by: ");
                out.append(line.as_str());
                source.push_causes(out);
            },
            None => {
                assert(self@.drop_first() =~= Seq::<Frame>::empty());
            },
        }
    }

    /// How the error reads in full: [`Self::to_string`], then a
    /// `Caused by:` line for each error in the source chain.
    pub fn debug_string(&self) -> (text: String)
        ensures
            text@ == chain_text(self@),
    {
        let mut text = self.to_string();
        self.push_causes(&mut text);
        text
    }

    /// Adds `attachment` to the current layer.
    pub(crate) fn push_attachment(&mut self, attachment: Attachment)
        ensures
            final(self)@ == with_attachment(old(self)@, attachment@),
    {
        proof {
            old(self).lemma_view();
        }
        self.attached.push(attachment);
        proof {
            self.lemma_view();
            assert(self@ =~= with_attachment(old(self)@, attachment@));
        }
    }
}

} // verus!

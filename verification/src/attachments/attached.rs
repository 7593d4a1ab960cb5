//! Collection type for storing multiple attachments on an error.
use vstd::prelude::*;
use crate::attachments::attachment::{Attachment, attachment_text};

verus! {

/// How a list of attachments reads after an error's message: each on a line
/// of its own, marked `▷`.
pub open spec fn attached_text(s: Seq<(Seq<char>, Seq<char>)>) -> Seq<char>
    decreases s.len(),
{
    if s.len() == 0 {
        Seq::empty()
    } else {
        attached_text(s.drop_last()) + "\n▷ "@ + attachment_text(s.last())
    }
}

/// Adding an attachment to a list adds one line to how it reads: a new line,
/// the mark `▷`, a space, the whole name, `: `, and the whole value.
pub proof fn lemma_attached_text_push(s: Seq<(Seq<char>, Seq<char>)>, a: (Seq<char>, Seq<char>))
    ensures
        attached_text(s.push(a)) == attached_text(s) + "\n▷ "@ + a.0 + ": "@ + a.1,
{
    assert(s.push(a).drop_last() =~= s);
    assert(attached_text(s) + "\n▷ "@ + (a.0 + ": "@ + a.1) =~= attached_text(s) + "\n▷ "@ + a.0
        + ": "@ + a.1);
}

/// Collection of [`Attachment`] on an error, in the order they were added.
pub struct Attached {
    inner: Vec<Attachment>,
}

impl View for Attached {
    type V = Seq<(Seq<char>, Seq<char>)>;

    closed spec fn view(&self) -> Seq<(Seq<char>, Seq<char>)> {
        self.inner@.map_values(|a: Attachment| a@)
    }
}

impl Attached {
    /// Create an empty collection.
    pub fn new() -> (attached: Self)
        ensures
            attached@ == Seq::<(Seq<char>, Seq<char>)>::empty(),
    {
        let attached = Attached { inner: Vec::new() };
        assert(attached@ =~= Seq::<(Seq<char>, Seq<char>)>::empty());
        attached
    }

    /// Append an [`Attachment`] to the collection.
    pub fn push(&mut self, attachment: Attachment)
        ensures
            final(self)@ == old(self)@.push(attachment@),
    {
        let ghost before = self.inner@;
        let ghost a = attachment@;
        self.inner.push(attachment);
        assert(self.inner@.map_values(|x: Attachment| x@) =~= before.map_values(
            |x: Attachment| x@,
        ).push(a));
    }

    /// Number of attachments in the collection.
    pub fn len(&self) -> (n: usize)
        ensures
            n == self@.len(),
    {
        self.inner.len()
    }

    /// Whether the collection holds no attachment.
    pub fn is_empty(&self) -> (empty: bool)
        ensures
            empty == (self@.len() == 0),
    {
        self.inner.len() == 0
    }

    /// The attachment at `index`.
    pub fn get(&self, index: usize) -> (a: &Attachment)
        requires
            index < self@.len(),
        ensures
            a@ == self@[index as int],
    {
        &self.inner[index]
    }

    /// How the attachments read after an error's message: each on a line of
    /// its own, as `\n▷ name: value`.
    pub fn to_string(&self) -> (text: String)
        ensures
            text@ == attached_text(self@),
    {
        let mut text = String::new();
        let mut i: usize = 0;
        while i < self.inner.len()
            invariant
                i <= self.inner@.len(),
                text@ == attached_text(self@.take(i as int)),
            decreases self.inner@.len() - i,
        {
            let line = self.inner[i].to_string();
            text.append("\n▷ ");
            text.append(line.as_str());
            assert(self@.take(i + 1).drop_last() =~= self@.take(i as int));
            i += 1;
        }
        assert(self@.take(i as int) =~= self@);
        text
    }
}

} // verus!

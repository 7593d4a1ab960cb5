//! Single key-value attachment for error context.
use vstd::prelude::*;

verus! {

/// The name under which a path is attached.
pub const PATH_KEY: &'static str = "path";

/// `String::from` on a string slice, which `Into<String>` for `&str` goes
/// through: the string holds the same characters as the slice.
pub assume_specification<'a, 'b>[ <String as From<&'a str>>::from ](s: &'b str) -> (r: String)
    ensures
        r@ == s@,
;

/// The text of a path, with any sequence that is not valid Unicode replaced
/// (`Path::to_string_lossy`).
///
/// Nothing is stated of the text: how a path's bytes map to text depends on
/// the platform's path encoding.
#[verifier::external_body]
fn lossy_path_text<P: AsRef<std::path::Path>>(path: P) -> String {
    path.as_ref().to_string_lossy().to_string()
}

/// How an attachment reads: `name: value`.
pub open spec fn attachment_text(a: (Seq<char>, Seq<char>)) -> Seq<char> {
    a.0 + ": "@ + a.1
}

/// An attachment reads as its whole name, then `: `, then its whole value:
/// the name is the start of the text, the value is the rest after the two
/// characters `: `, and nothing else is in it.
pub proof fn lemma_attachment_text_parts(a: (Seq<char>, Seq<char>))
    ensures
        attachment_text(a).len() == a.0.len() + 2 + a.1.len(),
        attachment_text(a).take(a.0.len() as int) == a.0,
        attachment_text(a)[a.0.len() as int] == ':',
        attachment_text(a)[a.0.len() as int + 1] == ' ',
        attachment_text(a).skip(a.0.len() as int + 2) == a.1,
{
    reveal_strlit(": ");
    let t = attachment_text(a);
    assert(t.take(a.0.len() as int) =~= a.0);
    assert(t.skip(a.0.len() as int + 2) =~= a.1);
}

/// Key-value pair of additional context on an error.
pub struct Attachment {
    /// Label describing the attached value.
    name: String,
    /// Stringified value.
    value: String,
}

impl View for Attachment {
    type V = (Seq<char>, Seq<char>);

    open spec fn view(&self) -> (Seq<char>, Seq<char>) {
        (self.name_string()@, self.value_string()@)
    }
}

impl Attachment {
    /// Create a new [`Attachment`] from a name and displayable value.
    pub fn new<N: Into<String>, V: core::fmt::Display>(name: N, value: V) -> (a: Self)
        ensures
            call_ensures(N::into, (name,), a.name_string()),
            vstd::string::to_string_from_display_ensures(&value, a.value_string()),
    {
        Attachment { name: name.into(), value: value.to_string() }
    }

    /// Create a new [`Attachment`] from a name and lazily evaluated value.
    pub fn with<N: Into<String>, D: core::fmt::Display, F: FnOnce() -> D>(name: N, value: F) -> (a: Self)
        requires
            value.requires(()),
        ensures
            call_ensures(N::into, (name,), a.name_string()),
            exists|d: D|
                value.ensures((), d) && vstd::string::to_string_from_display_ensures(
                    &d,
                    a.value_string(),
                ),
    {
        let name = name.into();
        let shown = value();
        let a = Attachment { name, value: shown.to_string() };
        // `shown` is the witness for the value's text.
        assert(value.ensures((), shown) && vstd::string::to_string_from_display_ensures(
            &shown,
            a.value_string(),
        ));
        a
    }

    /// Create a new [`Attachment`] for a path, named `path`, whose value is
    /// the path's text with any invalid sequence replaced
    /// (`Path::to_string_lossy`).
    pub fn path<P: AsRef<std::path::Path>>(path: P) -> (a: Self)
        ensures
            call_ensures(<&'static str as Into<String>>::into, (PATH_KEY,), a.name_string()),
            a@.0 == PATH_KEY@,
    {
        Attachment { name: PATH_KEY.into(), value: lossy_path_text(path) }
    }

    /// Create a new [`Attachment`] for a path given as text, named `path`.
    pub fn path_text(path: &str) -> (a: Self)
        ensures
            call_ensures(<&'static str as Into<String>>::into, (PATH_KEY,), a.name_string()),
            a@ == (PATH_KEY@, path@),
    {
        Attachment { name: PATH_KEY.into(), value: path.to_owned() }
    }

    /// The name as a `String` value.
    pub closed spec fn name_string(&self) -> String {
        self.name
    }

    /// The value as a `String` value.
    pub closed spec fn value_string(&self) -> String {
        self.value
    }

    /// The label of the attachment.
    pub fn name(&self) -> (name: &str)
        ensures
            name@ == self@.0,
            name@ == self.name_string()@,
    {
        self.name.as_str()
    }

    /// The stringified value of the attachment.
    pub fn value(&self) -> (value: &str)
        ensures
            value@ == self@.1,
            value@ == self.value_string()@,
    {
        self.value.as_str()
    }

    /// How the attachment reads: `name: value`.
    pub fn to_string(&self) -> (text: String)
        ensures
            text@ == attachment_text(self@),
            text@.len() == self@.0.len() + 2 + self@.1.len(),
            text@.take(self@.0.len() as int) == self@.0,
            text@.skip(self@.0.len() as int + 2) == self@.1,
    {
        proof {
            lemma_attachment_text_parts(self@);
        }
        let mut text = self.name.clone();
        text.append(": ");
        text.append(self.value.as_str());
        text
    }
}

} // verus!

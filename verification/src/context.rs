//! The contexts that an error report carries.
use vstd::prelude::*;

verus! {

/// An error context: a value that says what went wrong.
///
/// It reads as a message. The full path of its type and its `Debug` text
/// give the diagnostic code of the report that carries it.
pub trait ErrorContext: core::fmt::Debug {
    /// Whether `text` is how this context reads.
    spec fn reads_as(&self, text: Seq<char>) -> bool;

    /// The full path of this context's type, such as `my_crate::errors::MyError`.
    spec fn type_path_spec(&self) -> Seq<char>;

    /// Whether `text` is this context's `Debug` text, such as `Operation`
    /// for the variant `Operation` of an enum.
    spec fn debugs_as(&self, text: Seq<char>) -> bool;

    /// The message of this context.
    fn message(&self) -> (text: String)
        ensures
            self.reads_as(text@),
    ;

    /// The full path of this context's type.
    fn type_path(&self) -> (path: String)
        ensures
            path@ == self.type_path_spec(),
    ;

    /// The `Debug` text of this context.
    fn debug_text(&self) -> (text: String)
        ensures
            self.debugs_as(text@),
    ;
}

/// `std::io::Error`, carried through as a context.
#[verifier::external_type_specification]
#[verifier::external_body]
pub struct ExIoError(std::io::Error);

impl ErrorContext for std::io::Error {
    /// An I/O error reads as its `Display` text.
    open spec fn reads_as(&self, text: Seq<char>) -> bool {
        exists|s: String| s@ == text && vstd::string::to_string_from_display_ensures(self, s)
    }

    open spec fn type_path_spec(&self) -> Seq<char> {
        "std::io::error::Error"@
    }

    /// Nothing is stated of an I/O error's `Debug` text: it comes from the
    /// standard library's `Debug` impl, which nothing here specifies.
    open spec fn debugs_as(&self, text: Seq<char>) -> bool {
        true
    }

    fn message(&self) -> (text: String) {
        self.to_string()
    }

    fn debug_text(&self) -> (text: String) {
        crate::helpers::type_helpers::debug_text(self)
    }

    fn type_path(&self) -> (path: String) {
        "std::io::error::Error".to_owned()
    }
}

} // verus!

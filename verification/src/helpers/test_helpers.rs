//! Error contexts for examples and tests, and removal of ANSI escape codes.
use vstd::prelude::*;
use crate::context::ErrorContext;
use crate::text::push_char;

verus! {

/// Outer error context for error chains.
#[derive(Clone, Copy, Debug, PartialEq, Eq)]
pub enum OuterError {
    Operation,
}

impl ErrorContext for OuterError {
    open spec fn reads_as(&self, text: Seq<char>) -> bool {
        text == "Outer operation failed"@
    }

    open spec fn type_path_spec(&self) -> Seq<char> {
        "studiole_report::helpers::test_helpers::OuterError"@
    }

    open spec fn debugs_as(&self, text: Seq<char>) -> bool {
        text == "Operation"@
    }

    fn message(&self) -> (text: String) {
        "Outer operation failed".to_owned()
    }

    fn type_path(&self) -> (path: String) {
        "studiole_report::helpers::test_helpers::OuterError".to_owned()
    }

    fn debug_text(&self) -> (text: String) {
        "Operation".to_owned()
    }
}

/// Inner error context for error chains.
#[derive(Clone, Copy, Debug, PartialEq, Eq)]
pub enum InnerError {
    Operation,
}

impl ErrorContext for InnerError {
    open spec fn reads_as(&self, text: Seq<char>) -> bool {
        text == "Inner operation failed"@
    }

    open spec fn type_path_spec(&self) -> Seq<char> {
        "studiole_report::helpers::test_helpers::InnerError"@
    }

    open spec fn debugs_as(&self, text: Seq<char>) -> bool {
        text == "Operation"@
    }

    fn message(&self) -> (text: String) {
        "Inner operation failed".to_owned()
    }

    fn type_path(&self) -> (path: String) {
        "studiole_report::helpers::test_helpers::InnerError".to_owned()
    }

    fn debug_text(&self) -> (text: String) {
        "Operation".to_owned()
    }
}

/// Unit struct error, a context that is not an enum.
#[derive(Debug)]
pub struct UnitError;

impl ErrorContext for UnitError {
    open spec fn reads_as(&self, text: Seq<char>) -> bool {
        text == "Unit struct error"@
    }

    open spec fn type_path_spec(&self) -> Seq<char> {
        "studiole_report::helpers::test_helpers::UnitError"@
    }

    open spec fn debugs_as(&self, text: Seq<char>) -> bool {
        text == "UnitError"@
    }

    fn message(&self) -> (text: String) {
        "Unit struct error".to_owned()
    }

    fn type_path(&self) -> (path: String) {
        "studiole_report::helpers::test_helpers::UnitError".to_owned()
    }

    fn debug_text(&self) -> (text: String) {
        "UnitError".to_owned()
    }
}

/// The escape character that opens an ANSI control sequence.
pub const ANSI_ESCAPE: char = '\x1B';

/// Whether `c` is an ASCII letter, which ends an ANSI CSI sequence.
pub open spec fn is_ascii_letter_spec(c: char) -> bool {
    ('a' <= c && c <= 'z') || ('A' <= c && c <= 'Z')
}

/// Whether `c` is an ASCII letter.
pub fn is_ascii_letter(c: char) -> (r: bool)
    ensures
        r == is_ascii_letter_spec(c),
{
    ('a' <= c && c <= 'z') || ('A' <= c && c <= 'Z')
}

/// How many characters after an escape character its sequence takes: up to
/// and including the first ASCII letter of `s`, or all of `s` when it has
/// none.
pub open spec fn escape_len(s: Seq<char>) -> int
    decreases s.len(),
{
    if s.len() == 0 {
        0
    } else if is_ascii_letter_spec(s[0]) {
        1
    } else {
        1 + escape_len(s.drop_first())
    }
}

/// An escape sequence never runs past the end of the text.
pub proof fn lemma_escape_len_bound(s: Seq<char>)
    ensures
        0 <= escape_len(s) <= s.len(),
    decreases s.len(),
{
    if s.len() > 0 {
        lemma_escape_len_bound(s.drop_first());
    }
}

/// `s` with its ANSI CSI escape sequences removed: each escape character goes,
/// with what follows it up to and including the next ASCII letter (or to the
/// end of the text); every other character is kept.
pub open spec fn strip_ansi(s: Seq<char>) -> Seq<char>
    decreases s.len(),
{
    if s.len() == 0 {
        Seq::empty()
    } else if s[0] == ANSI_ESCAPE {
        proof {
            lemma_escape_len_bound(s.drop_first());
        }
        strip_ansi(s.skip(1 + escape_len(s.drop_first())))
    } else {
        seq![s[0]] + strip_ansi(s.drop_first())
    }
}

/// Strip ANSI CSI escape sequences from a string.
///
/// Handles sequences of the form `ESC [ <params> <letter>` used for colors,
/// bold, reset, etc. Does not handle OSC sequences (`ESC ]`) or other
/// non-CSI escapes.
pub fn strip_ansi_codes(input: &str) -> (output: String)
    ensures
        output@ == strip_ansi(input@),
{
    let mut output = String::new();
    let mut in_escape = false;
    assert(input@.skip(0) =~= input@);
    assert(output@ + strip_ansi(input@) =~= strip_ansi(input@));
    for c in it: input.chars()
        invariant
            it.seq() == input@,
            !in_escape ==> output@ + strip_ansi(input@.skip(it.index())) == strip_ansi(input@),
            in_escape ==> output@ + strip_ansi(
                input@.skip(it.index() + escape_len(input@.skip(it.index()))),
            ) == strip_ansi(input@),
    {
        let ghost i = it.index();
        let ghost rest = input@.skip(i);
        assert(rest.drop_first() =~= input@.skip(i + 1));
        proof {
            lemma_escape_len_bound(input@.skip(i + 1));
        }
        if in_escape {
            if is_ascii_letter(c) {
                in_escape = false;
            }
        } else if c == ANSI_ESCAPE {
            assert(rest.skip(1 + escape_len(rest.drop_first())) =~= input@.skip(
                i + 1 + escape_len(input@.skip(i + 1)),
            ));
            in_escape = true;
        } else {
            push_char(&mut output, c);
        }
    }
    assert(input@.skip(input@.len() as int) =~= Seq::<char>::empty());
    output
}

/// The result of `strip_ansi_codes` holds no escape character.
pub proof fn lemma_strip_ansi_has_no_escape(s: Seq<char>)
    ensures
        !strip_ansi(s).contains(ANSI_ESCAPE),
    decreases s.len(),
{
    if s.len() > 0 {
        let rest = s.drop_first();
        if s[0] == ANSI_ESCAPE {
            lemma_escape_len_bound(rest);
            lemma_strip_ansi_has_no_escape(s.skip(1 + escape_len(rest)));
        } else {
            lemma_strip_ansi_has_no_escape(rest);
            let tail = strip_ansi(rest);
            assert forall|i: int| 0 <= i < 1 + tail.len() implies (seq![s[0]] + tail)[i]
                != ANSI_ESCAPE by {
                if i > 0 {
                    assert((seq![s[0]] + tail)[i] == tail[i - 1]);
                }
            }
        }
    }
}

/// Text without an escape character comes back unchanged.
pub proof fn lemma_strip_ansi_keeps_plain_text(s: Seq<char>)
    requires
        !s.contains(ANSI_ESCAPE),
    ensures
        strip_ansi(s) == s,
    decreases s.len(),
{
    if s.len() > 0 {
        let rest = s.drop_first();
        assert(s[0] != ANSI_ESCAPE);
        assert(!rest.contains(ANSI_ESCAPE)) by {
            if rest.contains(ANSI_ESCAPE) {
                let i = choose|i: int| 0 <= i < rest.len() && rest[i] == ANSI_ESCAPE;
                assert(s[i + 1] == ANSI_ESCAPE);
            }
        }
        lemma_strip_ansi_keeps_plain_text(rest);
        assert(seq![s[0]] + rest =~= s);
    }
}

/// Stripping twice is the same as stripping once.
pub proof fn lemma_strip_ansi_idempotent(s: Seq<char>)
    ensures
        strip_ansi(strip_ansi(s)) == strip_ansi(s),
{
    lemma_strip_ansi_has_no_escape(s);
    lemma_strip_ansi_keeps_plain_text(strip_ansi(s));
}

/// Stripping never makes a text longer.
pub proof fn lemma_strip_ansi_not_longer(s: Seq<char>)
    ensures
        strip_ansi(s).len() <= s.len(),
    decreases s.len(),
{
    if s.len() > 0 {
        let rest = s.drop_first();
        if s[0] == ANSI_ESCAPE {
            lemma_escape_len_bound(rest);
            lemma_strip_ansi_not_longer(s.skip(1 + escape_len(rest)));
        } else {
            lemma_strip_ansi_not_longer(rest);
        }
    }
}

} // verus!

//! Diagnostic codes built from a context's type name and its `Debug` text.
use vstd::prelude::*;
use crate::context::ErrorContext;
use crate::text::{char_vec, push_char};

verus! {

/// Whether the two characters of `s` from index `i` spell the path separator `::`.
pub open spec fn separator_at(s: Seq<char>, i: int) -> bool {
    0 <= i && i + 1 < s.len() && s[i] == ':' && s[i + 1] == ':'
}

/// The text of `s` before its first `::`, or all of `s` when it has none.
pub open spec fn first_segment(s: Seq<char>) -> Seq<char>
    decreases s.len(),
{
    if s.len() < 2 {
        s
    } else if separator_at(s, 0) {
        Seq::empty()
    } else {
        seq![s[0]] + first_segment(s.drop_first())
    }
}

/// The text of `s` after its first `::`, if it has one.
pub open spec fn after_first_separator(s: Seq<char>) -> Option<Seq<char>>
    decreases s.len(),
{
    if s.len() < 2 {
        None
    } else if separator_at(s, 0) {
        Some(s.skip(2))
    } else {
        after_first_separator(s.drop_first())
    }
}

/// What follows the first `::` is shorter than the text it was taken from.
pub proof fn lemma_after_first_separator_shorter(s: Seq<char>)
    ensures
        after_first_separator(s) matches Some(rest) ==> rest.len() + 2 <= s.len(),
    decreases s.len(),
{
    if s.len() >= 2 && !separator_at(s, 0) {
        lemma_after_first_separator_shorter(s.drop_first());
    }
}

/// The last of the pieces that splitting `s` at each `::`, from left to
/// right, gives.
pub open spec fn last_segment(s: Seq<char>) -> Seq<char>
    decreases s.len(),
{
    match after_first_separator(s) {
        None => s,
        Some(rest) => {
            proof {
                lemma_after_first_separator_shorter(s);
            }
            last_segment(rest)
        },
    }
}

/// Whether `c` ends the first word of a `Debug` text.
pub open spec fn is_word_end(c: char) -> bool {
    c == ' ' || c == '(' || c == '{'
}

/// The text of `s` before its first space, `(` or `{`.
pub open spec fn first_word(s: Seq<char>) -> Seq<char>
    decreases s.len(),
{
    if s.len() == 0 || is_word_end(s[0]) {
        Seq::empty()
    } else {
        seq![s[0]] + first_word(s.drop_first())
    }
}

/// The first word of a `Debug` text is the longest start of it that holds no
/// space, `(` or `{`: it is a prefix, none of its characters ends a word, and
/// it stops at the end of the text or at a character that ends a word.
pub proof fn lemma_first_word_is_longest_plain_prefix(s: Seq<char>)
    ensures
        first_word(s).len() <= s.len(),
        first_word(s) == s.take(first_word(s).len() as int),
        forall|i: int| 0 <= i < first_word(s).len() ==> !is_word_end(#[trigger] first_word(s)[i]),
        first_word(s).len() == s.len() || is_word_end(s[first_word(s).len() as int]),
    decreases s.len(),
{
    if s.len() > 0 && !is_word_end(s[0]) {
        let rest = s.drop_first();
        lemma_first_word_is_longest_plain_prefix(rest);
        let w = first_word(rest);
        assert(first_word(s) == seq![s[0]] + w);
        assert(s.take(1 + w.len() as int) =~= seq![s[0]] + rest.take(w.len() as int));
        assert forall|i: int| 0 <= i < first_word(s).len() implies !is_word_end(
            #[trigger] first_word(s)[i],
        ) by {
            if i > 0 {
                assert(first_word(s)[i] == w[i - 1]);
            }
        }
        if w.len() < rest.len() {
            assert(s[1 + w.len() as int] == rest[w.len() as int]);
        }
    } else {
        assert(s.take(0) =~= Seq::<char>::empty());
    }
}

/// The shape of a diagnostic code: it starts with the crate, `::` and the
/// type; when the first word of the `Debug` text differs from the type, the
/// code goes on with `::` and that word, and otherwise it ends there.
pub proof fn lemma_short_code_shape(full_name: Seq<char>, debug: Seq<char>)
    ensures
        ({
            let code = short_code_spec(full_name, debug);
            let head = first_segment(full_name) + "::"@ + last_segment(full_name);
            let word = first_word(debug);
            &&& code.take(head.len() as int) == head
            &&& word != last_segment(full_name) ==> {
                &&& code.len() == head.len() + 2 + word.len()
                &&& code.skip(head.len() as int) == "::"@ + word
            }
            &&& word == last_segment(full_name) ==> code == head
        }),
{
    let code = short_code_spec(full_name, debug);
    let head = first_segment(full_name) + "::"@ + last_segment(full_name);
    let word = first_word(debug);
    reveal_strlit("::");
    if word != last_segment(full_name) {
        assert(code =~= head + ("::"@ + word));
        assert(code.take(head.len() as int) =~= head);
        assert(code.skip(head.len() as int) =~= "::"@ + word);
    } else {
        assert(code.take(head.len() as int) =~= head);
    }
}

/// The diagnostic code for a context whose full type name is `full_name`
/// and whose `Debug` text is `debug`.
///
/// The code starts with the crate (the first path segment) and the type (the
/// last one). When the first word of the `Debug` text is not the type's own
/// name, the context is an enum variant, and that word is added:
/// `crate::Enum::Variant` or `crate::Struct`.
pub open spec fn short_code_spec(full_name: Seq<char>, debug: Seq<char>) -> Seq<char> {
    let krate = first_segment(full_name);
    let ty = last_segment(full_name);
    let word = first_word(debug);
    if word != ty {
        krate + "::"@ + ty + "::"@ + word
    } else {
        krate + "::"@ + ty
    }
}

/// Appends `v[from..to]` to `out`.
fn push_slice(out: &mut String, v: &Vec<char>, from: usize, to: usize)
    requires
        from <= to <= v.len(),
    ensures
        final(out)@ == old(out)@ + v@.subrange(from as int, to as int),
{
    let mut i = from;
    while i < to
        invariant
            from <= i <= to <= v.len(),
            out@ == old(out)@ + v@.subrange(from as int, i as int),
        decreases to - i,
    {
        push_char(out, v[i]);
        assert(v@.subrange(from as int, i + 1) =~= v@.subrange(from as int, i as int).push(v@[i as int]));
        i += 1;
    }
}

/// Finds the first `::` in `v` at or after `from`.
fn find_separator(v: &Vec<char>, from: usize) -> (r: Option<usize>)
    requires
        from <= v.len(),
    ensures
        match r {
            None => {
                &&& after_first_separator(v@.skip(from as int)) is None
                &&& first_segment(v@.skip(from as int)) == v@.skip(from as int)
            },
            Some(k) => {
                &&& from <= k && k + 2 <= v.len()
                &&& after_first_separator(v@.skip(from as int)) == Some(v@.skip(k + 2))
                &&& first_segment(v@.skip(from as int)) == v@.subrange(from as int, k as int)
            },
        },
{
    let mut i = from;
    while v.len() - i > 1
        invariant
            from <= i <= v.len(),
            after_first_separator(v@.skip(from as int)) == after_first_separator(v@.skip(i as int)),
            first_segment(v@.skip(from as int)) == v@.subrange(from as int, i as int) + first_segment(
                v@.skip(i as int),
            ),
        decreases v.len() - i,
    {
        let ghost rest = v@.skip(i as int);
        if v[i] == ':' && v[i + 1] == ':' {
            assert(separator_at(rest, 0));
            assert(rest.skip(2) =~= v@.skip(i + 2));
            assert(v@.subrange(from as int, i as int) + Seq::<char>::empty() =~= v@.subrange(
                from as int,
                i as int,
            ));
            return Some(i);
        }
        assert(rest.drop_first() =~= v@.skip(i + 1));
        assert(v@.subrange(from as int, i as int) + (seq![rest[0]] + first_segment(rest.drop_first()))
            =~= v@.subrange(from as int, i + 1) + first_segment(v@.skip(i + 1)));
        i += 1;
    }
    assert(v@.subrange(from as int, i as int) + v@.skip(i as int) =~= v@.skip(from as int));
    None
}

/// The diagnostic code for a context whose full type name is `full_name`
/// and whose `Debug` text is `debug` (see [`short_code_spec`]).
pub fn code_from_names(full_name: &str, debug: &str) -> (code: String)
    ensures
        code@ == short_code_spec(full_name@, debug@),
{
    let name = char_vec(full_name);
    // The crate: everything before the first separator.
    let first_end = match find_separator(&name, 0) {
        Some(k) => k,
        None => name.len(),
    };
    assert(name@.skip(0) =~= name@);
    assert(name@.subrange(0, name@.len() as int) =~= name@);
    // The type: everything after the last separator, found from left to right.
    let mut start: usize = 0;
    loop
        invariant
            start <= name.len(),
            last_segment(name@) == last_segment(name@.skip(start as int)),
        ensures
            start <= name.len(),
            last_segment(name@) == name@.skip(start as int),
        decreases name.len() - start,
    {
        match find_separator(&name, start) {
            Some(k) => {
                start = k + 2;
            },
            None => {
                break ;
            },
        }
    }
    let debug_chars = char_vec(debug);
    let mut word_end: usize = 0;
    assert(debug_chars@.skip(0) =~= debug_chars@);
    assert(debug_chars@.subrange(0, 0) + debug_chars@ =~= debug_chars@);
    while word_end < debug_chars.len() && !(debug_chars[word_end] == ' ' || debug_chars[word_end]
        == '(' || debug_chars[word_end] == '{')
        invariant
            word_end <= debug_chars.len(),
            first_word(debug_chars@) == debug_chars@.subrange(0, word_end as int) + first_word(
                debug_chars@.skip(word_end as int),
            ),
        decreases debug_chars.len() - word_end,
    {
        let ghost rest = debug_chars@.skip(word_end as int);
        assert(rest.drop_first() =~= debug_chars@.skip(word_end + 1));
        assert(debug_chars@.subrange(0, word_end as int) + (seq![rest[0]] + first_word(
            rest.drop_first(),
        )) =~= debug_chars@.subrange(0, word_end + 1) + first_word(
            debug_chars@.skip(word_end + 1),
        ));
        word_end += 1;
    }
    assert(first_word(debug_chars@.skip(word_end as int)) =~= Seq::<char>::empty());
    assert(debug_chars@.subrange(0, word_end as int) + Seq::<char>::empty() =~= debug_chars@.subrange(
        0,
        word_end as int,
    ));
    let ghost ty = name@.skip(start as int);
    let ghost word = debug_chars@.subrange(0, word_end as int);
    assert(ty =~= name@.subrange(start as int, name@.len() as int));
    // Is the first word of the Debug text the type's own name?
    let mut same = name.len() - start == word_end;
    let mut i: usize = 0;
    while same && i < word_end
        invariant
            i <= word_end <= debug_chars.len(),
            start <= name.len(),
            ty == name@.skip(start as int),
            word == debug_chars@.subrange(0, word_end as int),
            same ==> name.len() - start == word_end,
            same ==> forall|j: int| 0 <= j < i ==> name@[start + j] == debug_chars@[j],
            !same ==> ty != word,
        decreases word_end - i,
    {
        if name[start + i] != debug_chars[i] {
            assert(ty[i as int] != word[i as int]);
            same = false;
        }
        i += 1;
    }
    assert(same ==> ty =~= word);
    let mut code = String::new();
    push_slice(&mut code, &name, 0, first_end);
    code.append("::");
    push_slice(&mut code, &name, start, name.len());
    if !same {
        code.append("::");
        push_slice(&mut code, &debug_chars, 0, word_end);
    }
    code
}


/// The `Debug` text of `value` (`format!("{:?}", value)`).
///
/// Nothing is stated of the text: it comes from the value's own `Debug`
/// implementation.
#[verifier::external_body]
pub(crate) fn debug_text<T: core::fmt::Debug + ?Sized>(value: &T) -> String {
    format!("{:?}", value)
}

/// Build a short diagnostic code from the type path of `context` and its
/// `Debug` output.
///
/// - Enum contexts: `crate::EnumName::Variant`
/// - Struct contexts: `crate::StructName`
pub fn short_code<T: ErrorContext>(context: &T) -> (code: String)
    ensures
        exists|debug: Seq<char>|
            context.debugs_as(debug) && code@ == short_code_spec(context.type_path_spec(), debug),
{
    let full_name = context.type_path();
    let debug = context.debug_text();
    code_from_names(full_name.as_str(), debug.as_str())
}

/// `short_code` gives every context whose `Debug` text is determined one
/// code only: the code of its type path and that `Debug` text. Its variant
/// word is the first word of that text whenever it differs from the type's
/// own name.
pub proof fn lemma_short_code_of_context<T: ErrorContext>(
    context: T,
    debug: Seq<char>,
    code: Seq<char>,
)
    requires
        context.debugs_as(debug),
        forall|a: Seq<char>, b: Seq<char>|
            context.debugs_as(a) && context.debugs_as(b) ==> a == b,
        exists|d: Seq<char>|
            context.debugs_as(d) && code == short_code_spec(context.type_path_spec(), d),
    ensures
        code == short_code_spec(context.type_path_spec(), debug),
        first_word(debug) != last_segment(context.type_path_spec()) ==> code.skip(
            code.len() - first_word(debug).len() - 2,
        ) == "::"@ + first_word(debug),
{
    let d = choose|d: Seq<char>|
        context.debugs_as(d) && code == short_code_spec(context.type_path_spec(), d);
    assert(d == debug);
    lemma_short_code_shape(context.type_path_spec(), debug);
}

} // verus!

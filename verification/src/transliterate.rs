//! The transliteration engine: a text goes in, one code point at a time, and
//! its ASCII rendering comes out.
//!
//! The engine keeps no state. What it returns is a function of the input and
//! of the mapping alone.

use crate::mapping::{table_entry, table_lookup};
use vstd::prelude::*;
use vstd::utf8::is_ascii_chars;

verus! {

/// Whether `c` lies in the ASCII range, `0x00` to `0x7F`.
pub open spec fn is_ascii_char(c: char) -> bool {
    c <= '\u{7f}'
}

/// What stands for the code point `c`, where `entry` is what the mapping
/// holds for it.
///
/// An ASCII code point stands for itself, whatever the entry. Any other is
/// replaced by its entry. Where there is none, or one that is not ASCII
/// throughout, the code point is dropped.
pub open spec fn replacement_of(c: char, entry: Option<Seq<char>>) -> Seq<char> {
    if is_ascii_char(c) {
        seq![c]
    } else {
        match entry {
            Some(r) => if is_ascii_chars(r) {
                r
            } else {
                Seq::empty()
            },
            None => Seq::empty(),
        }
    }
}

/// What one code point is replaced by: what stands for it under the entry
/// that the mapping holds for it.
pub open spec fn replacement(c: char) -> Seq<char> {
    replacement_of(c, table_entry(c))
}

/// The transliteration of a text: the replacements of its code points, one
/// after the other, in the order of the input.
pub open spec fn transliteration(s: Seq<char>) -> Seq<char>
    decreases s.len(),
{
    if s.len() == 0 {
        Seq::empty()
    } else {
        transliteration(s.drop_last()) + replacement(s.last())
    }
}

/// The replacement of any code point is ASCII.
pub proof fn lemma_replacement_is_ascii(c: char)
    ensures
        is_ascii_chars(replacement(c)),
{
}

/// A text made of two parts is transliterated part by part.
pub proof fn lemma_transliteration_concat(a: Seq<char>, b: Seq<char>)
    ensures
        transliteration(a + b) == transliteration(a) + transliteration(b),
    decreases b.len(),
{
    if b.len() == 0 {
        assert(a + b == a);
    } else {
        assert((a + b).drop_last() == a + b.drop_last());
        assert((a + b).last() == b.last());
        lemma_transliteration_concat(a, b.drop_last());
    }
}

/// Whatever the input, its transliteration holds ASCII code points only.
pub proof fn lemma_transliteration_is_ascii(s: Seq<char>)
    ensures
        is_ascii_chars(transliteration(s)),
    decreases s.len(),
{
    if s.len() > 0 {
        lemma_transliteration_is_ascii(s.drop_last());
        lemma_replacement_is_ascii(s.last());
    }
}

/// A text that is ASCII throughout is its own transliteration.
pub proof fn lemma_transliteration_of_ascii(s: Seq<char>)
    requires
        is_ascii_chars(s),
    ensures
        transliteration(s) == s,
    decreases s.len(),
{
    if s.len() > 0 {
        lemma_transliteration_of_ascii(s.drop_last());
        assert(is_ascii_char(s.last()));
        assert(s.drop_last() + seq![s.last()] == s);
    }
}

/// Transliterating a second time changes nothing: the transliteration of a
/// transliteration is that transliteration.
pub proof fn lemma_transliteration_idempotent(s: Seq<char>)
    ensures
        transliteration(transliteration(s)) == transliteration(s),
{
    lemma_transliteration_is_ascii(s);
    lemma_transliteration_of_ascii(transliteration(s));
}

/// `String::push` of std, which vstd leaves without a specification.
///
/// Not verified. As std documents it, the call appends `c` to the end of the
/// string and changes nothing else.
pub assume_specification[ std::string::String::push ](s: &mut std::string::String, c: char)
    ensures
        final(s)@ == old(s)@.push(c),
;

/// The text of an entry of the mapping.
pub open spec fn entry_text(entry: Option<&str>) -> Option<Seq<char>> {
    match entry {
        Some(r) => Some(r@),
        None => None,
    }
}

/// Appends to `out` what stands for `c`, where `entry` is what the mapping
/// holds for `c`.
pub fn push_entry(out: &mut String, c: char, entry: Option<&str>)
    ensures
        final(out)@ == old(out)@ + replacement_of(c, entry_text(entry)),
{
    if c <= '\u{7f}' {
        out.push(c);
    } else {
        match entry {
            Some(r) => {
                if r.is_ascii() {
                    out.append(r);
                }
            },
            None => {},
        }
    }
}

/// Appends the replacement of `c` to `out`. The mapping is asked only where
/// `c` is not ASCII.
pub fn push_replacement(out: &mut String, c: char)
    ensures
        final(out)@ == old(out)@ + replacement(c),
{
    let entry = if c <= '\u{7f}' {
        None
    } else {
        table_lookup(c)
    };
    push_entry(out, c, entry);
}

/// Transliterates `input` into ASCII.
pub fn transliterate(input: &str) -> (out: String)
    ensures
        out@ == transliteration(input@),
        is_ascii_chars(out@),
        is_ascii_chars(input@) ==> out@ == input@,
{
    proof {
        lemma_transliteration_is_ascii(input@);
        if is_ascii_chars(input@) {
            lemma_transliteration_of_ascii(input@);
        }
    }
    let mut out = String::new();
    for c in it: input.chars()
        invariant
            it.seq() == input@,
            out@ == transliteration(input@.take(it.index() as int)),
    {
        proof {
            let i = it.index() as int;
            assert(input@.take(i + 1).drop_last() == input@.take(i));
            assert(input@.take(i + 1).last() == c);
        }
        push_replacement(&mut out, c);
    }
    proof {
        assert(input@.take(input@.len() as int) == input@);
    }
    out
}

} // verus!

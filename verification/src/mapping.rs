//! The code point mapping: the text that the table gives for a code point.
//!
//! The table itself is the one that the `deunicode` crate compiles in. It is
//! read one code point at a time and never changes.

use vstd::prelude::*;

verus! {

/// The entry of the `deunicode` crate's table for `c`: the text that the
/// table gives for it, or `None` where the table has nothing for `c`.
pub uninterp spec fn table_entry(c: char) -> Option<Seq<char>>;

/// Looks `c` up in the table, by `deunicode::deunicode_char`.
///
/// Not verified. The contract claims one thing only: the call returns the
/// table's entry for `c`, which depends on `c` alone. Nothing is claimed of
/// what the entry holds.
#[verifier::external_body]
pub(crate) fn table_lookup(c: char) -> (r: Option<&'static str>)
    ensures
        table_entry(c) == match r {
            Some(s) => Some(s@),
            None => None,
        },
{
    deunicode::deunicode_char(c)
}

} // verus!

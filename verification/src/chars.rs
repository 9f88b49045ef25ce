//! Counting characters in text, and freedom from braces.
//!
//! The assembled document delimits its one graph body with a brace pair; the
//! well-formedness law needs to know that the statement blocks between them
//! bring no brace of their own.

use vstd::prelude::*;

verus! {

/// Number of occurrences of one character in a sequence.
pub open spec fn count_char(s: Seq<char>, c: char) -> int
    decreases s.len(),
{
    if s.len() == 0 {
        0
    } else {
        count_char(s.drop_last(), c) + if s.last() == c {
            1int
        } else {
            0int
        }
    }
}

/// A sequence holding neither an opening nor a closing brace.
pub open spec fn brace_free(s: Seq<char>) -> bool {
    count_char(s, '{') == 0 && count_char(s, '}') == 0
}

/// Character counts add up across concatenation.
pub proof fn lemma_count_char_concat(a: Seq<char>, b: Seq<char>, c: char)
    ensures
        count_char(a + b, c) == count_char(a, c) + count_char(b, c),
    decreases b.len(),
{
    if b.len() == 0 {
        assert(a + b =~= a);
    } else {
        lemma_count_char_concat(a, b.drop_last(), c);
        assert((a + b).drop_last() =~= a + b.drop_last());
    }
}

/// Concatenation of brace-free sequences is brace-free.
pub proof fn lemma_brace_free_concat(a: Seq<char>, b: Seq<char>)
    requires
        brace_free(a),
        brace_free(b),
    ensures
        brace_free(a + b),
{
    lemma_count_char_concat(a, b, '{');
    lemma_count_char_concat(a, b, '}');
}

} // verus!

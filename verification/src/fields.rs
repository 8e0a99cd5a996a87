//! A command line is a run of fields separated by single spaces.
//!
//! Splitting on every space and joining the later fields back with a space
//! gives back the text after the first space unchanged, so a line is read as
//! its first field and the rest that follows the first separator.

use vstd::prelude::*;

verus! {

/// How many characters of `s` come before its first space (all of them when
/// `s` holds no space).
pub open spec fn field_end(s: Seq<char>) -> nat
    decreases s.len(),
{
    if s.len() == 0 {
        0
    } else if s[0] == ' ' {
        0
    } else {
        1 + field_end(s.drop_first())
    }
}

/// The first field of `s`: everything before its first space.
pub open spec fn first_field(s: Seq<char>) -> Seq<char> {
    s.take(field_end(s) as int)
}

/// `s` holds at least one space.
pub open spec fn has_separator(s: Seq<char>) -> bool {
    field_end(s) < s.len()
}

/// What follows the first space of `s`; empty when there is none.
pub open spec fn after_first_field(s: Seq<char>) -> Seq<char> {
    if has_separator(s) {
        s.skip(field_end(s) + 1int)
    } else {
        Seq::empty()
    }
}

/// The first space of `s` stands at `i` (or `s` has none and `i` is its length).
pub open spec fn is_first_space(s: Seq<char>, i: int) -> bool {
    &&& 0 <= i <= s.len()
    &&& i == s.len() || s[i] == ' '
    &&& forall|j: int| 0 <= j < i ==> s[j] != ' '
}

/// `field_end` is the position of the first space, or the length.
pub proof fn lemma_field_end(s: Seq<char>, i: int)
    requires
        is_first_space(s, i),
    ensures
        field_end(s) == i,
    decreases i,
{
    if i > 0 {
        assert(s[0] != ' ');
        let t = s.drop_first();
        assert forall|j: int| 0 <= j < i - 1 implies t[j] != ' ' by {
            assert(t[j] == s[j + 1]);
        }
        if i < s.len() {
            assert(t[i - 1] == s[i]);
        }
        lemma_field_end(t, i - 1);
    }
}

/// `field_end` never passes the end, and no space comes before it.
pub proof fn lemma_field_end_bounds(s: Seq<char>)
    ensures
        is_first_space(s, field_end(s) as int),
    decreases s.len(),
{
    if s.len() > 0 && s[0] != ' ' {
        let t = s.drop_first();
        lemma_field_end_bounds(t);
        assert forall|j: int| 0 <= j < field_end(s) implies s[j] != ' ' by {
            if j > 0 {
                assert(s[j] == t[j - 1]);
            }
        }
        if field_end(s) < s.len() {
            assert(s[field_end(s) as int] == t[field_end(t) as int]);
        }
    }
}

/// Finds the first space of `s`, counted in characters; the length of `s`
/// when it holds none.
pub fn find_space(s: &str) -> (i: usize)
    ensures
        i == field_end(s@),
{
    let n = s.unicode_len();
    let mut i: usize = 0;
    while i < n
        invariant
            n == s@.len(),
            i <= n,
            forall|j: int| 0 <= j < i ==> s@[j] != ' ',
        decreases n - i,
    {
        if s.get_char(i) == ' ' {
            proof {
                lemma_field_end(s@, i as int);
            }
            return i;
        }
        i = i + 1;
    }
    proof {
        lemma_field_end(s@, i as int);
    }
    i
}

/// Splits `s` at its first space: the first field, and what follows the
/// space when there is one.
pub fn split_first(s: &str) -> (parts: (String, Option<String>))
    ensures
        parts.0@ == first_field(s@),
        parts.1 is Some <==> has_separator(s@),
        parts.1 matches Some(rest) ==> rest@ == after_first_field(s@),
{
    let n = s.unicode_len();
    let i = find_space(s);
    proof {
        lemma_field_end_bounds(s@);
    }
    let head = s.substring_char(0, i).to_owned();
    if i < n {
        let rest = s.substring_char(i + 1, n).to_owned();
        (head, Some(rest))
    } else {
        (head, None)
    }
}

} // verus!

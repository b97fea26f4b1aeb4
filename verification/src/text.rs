//! Small verified helpers on text.

use vstd::prelude::*;
use vstd::string::*;

verus! {

/// Tells whether two pieces of text hold the same characters.
pub fn same_text(a: &str, b: &str) -> (same: bool)
    ensures
        same == (a@ == b@),
{
    a.to_string() == b.to_string()
}

/// The position of the first `c` in `s`, or the length of `s` where there is none.
pub open spec fn first_index_of(s: Seq<char>, c: char) -> int
    decreases s.len(),
{
    if s.len() == 0 {
        0
    } else if s[0] == c {
        0
    } else {
        1 + first_index_of(s.drop_first(), c)
    }
}

/// `first_index_of` points at the first occurrence and nothing before it matches.
pub proof fn lemma_first_index_of(s: Seq<char>, c: char)
    ensures
        0 <= first_index_of(s, c) <= s.len(),
        first_index_of(s, c) < s.len() ==> s[first_index_of(s, c)] == c,
        forall|j: int| 0 <= j < first_index_of(s, c) ==> s[j] != c,
        first_index_of(s, c) == s.len() <==> !s.contains(c),
    decreases s.len(),
{
    if s.len() == 0 {
    } else if s[0] == c {
        assert(s.contains(c));
    } else {
        let rest = s.drop_first();
        lemma_first_index_of(rest, c);
        let k = first_index_of(rest, c);
        assert forall|j: int| 0 <= j < k + 1 implies s[j] != c by {
            if j > 0 {
                assert(rest[j - 1] == s[j]);
            }
        }
        if k < rest.len() {
            assert(rest[k] == s[k + 1]);
            assert(s.contains(c));
        } else {
            if s.contains(c) {
                let i = choose|i: int| 0 <= i < s.len() && s[i] == c;
                assert(rest[i - 1] == s[i]);
                assert(rest.contains(c));
            }
        }
    }
}

/// Finds the first `c` at or after `from`; returns the length of `s` where there is none.
pub fn find_char_from(s: &str, c: char, from: usize) -> (at: usize)
    requires
        from <= s@.len(),
    ensures
        from <= at <= s@.len(),
        at < s@.len() ==> s@[at as int] == c,
        forall|j: int| from <= j < at ==> s@[j] != c,
{
    let len = s.unicode_len();
    let mut i: usize = from;
    while i < len
        invariant
            from <= i <= len,
            len == s@.len(),
            forall|j: int| from <= j < i ==> s@[j] != c,
        decreases len - i,
    {
        if s.get_char(i) == c {
            return i;
        }
        i = i + 1;
    }
    len
}

/// Finds the first `c` in `s`; returns the length of `s` where there is none.
pub fn index_of_first(s: &str, c: char) -> (at: usize)
    ensures
        at == first_index_of(s@, c),
        at <= s@.len(),
{
    let at = find_char_from(s, c, 0);
    proof {
        lemma_first_index_of(s@, c);
        let k = first_index_of(s@, c);
        if k < at {
            assert(s@[k] == c);
        }
        if at < k {
            assert(s@[at as int] == c);
        }
    }
    at
}

/// The text before the first `c`, or all of `s` where `c` does not occur.
pub fn text_before(s: &str, c: char) -> (head: String)
    ensures
        head@ == s@.subrange(0, first_index_of(s@, c)),
{
    let at = index_of_first(s, c);
    s.substring_char(0, at).to_string()
}

/// Tells whether `list` holds a text with the characters of `s`.
pub fn list_contains(list: &Vec<String>, s: &str) -> (found: bool)
    ensures
        found == list.deep_view().contains(s@),
{
    let mut i: usize = 0;
    while i < list.len()
        invariant
            i <= list.len(),
            forall|j: int| 0 <= j < i ==> list.deep_view()[j] != s@,
        decreases list.len() - i,
    {
        if same_text(list[i].as_str(), s) {
            assert(list.deep_view()[i as int] == s@);
            return true;
        }
        i = i + 1;
    }
    false
}

/// Whether `s` begins with `prefix`.
pub open spec fn has_prefix(s: Seq<char>, prefix: Seq<char>) -> bool {
    prefix.len() <= s.len() && s.subrange(0, prefix.len() as int) == prefix
}

/// Tells whether `s` begins with `prefix`.
pub fn starts_with(s: &str, prefix: &str) -> (b: bool)
    ensures
        b == has_prefix(s@, prefix@),
{
    let n = prefix.unicode_len();
    if n > s.unicode_len() {
        return false;
    }
    same_text(s.substring_char(0, n), prefix)
}

/// Joins three pieces of text.
pub fn join3(a: &str, b: &str, c: &str) -> (joined: String)
    ensures
        joined@ == a@ + b@ + c@,
{
    a.to_string().concat(b).concat(c)
}

/// Joins two pieces of text.
pub fn join2(a: &str, b: &str) -> (joined: String)
    ensures
        joined@ == a@ + b@,
{
    a.to_string().concat(b)
}

} // verus!

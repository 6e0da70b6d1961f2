//! Character-level helpers over strings.
//!
//! Every contract here speaks of a string through its view, the sequence of
//! its characters.

use vstd::prelude::*;
use vstd::std_specs::iter::IteratorSpec;
use vstd::string::StringExecFns;

verus! {

broadcast use vstd::string::group_string_axioms;

/// `a`, a slash, then `b`.
pub open spec fn slash_joined(a: Seq<char>, b: Seq<char>) -> Seq<char> {
    a + seq!['/'] + b
}

/// `s` without its final character when that character is a line feed,
/// and `s` itself otherwise.
pub open spec fn without_line_end(s: Seq<char>) -> Seq<char> {
    if s.len() > 0 && s.last() == '\n' {
        s.drop_last()
    } else {
        s
    }
}

/// Whether the text `a` comes before the text `b`, character by character,
/// a character counting by its code point and a proper prefix coming first.
pub open spec fn text_precedes(a: Seq<char>, b: Seq<char>) -> bool
    decreases a.len(),
{
    if b.len() == 0 {
        false
    } else if a.len() == 0 {
        true
    } else if a.first() != b.first() {
        (a.first() as u32) < (b.first() as u32)
    } else {
        text_precedes(a.drop_first(), b.drop_first())
    }
}

/// The characters of `s`, in order.
pub fn chars_of(s: &str) -> (out: Vec<char>)
    ensures
        out@ == s@,
{
    let mut out: Vec<char> = Vec::new();
    let mut it = s.chars();
    loop
        invariant
            out@ + it.remaining() == s@,
            it.decrease() is Some,
        ensures
            out@ == s@,
        decreases it.decrease()->0,
    {
        match it.next() {
            Some(c) => {
                out.push(c);
            },
            None => {
                break ;
            },
        }
    }
    out
}

/// Whether `s` ends with the characters of `suffix`.
pub fn ends_with(s: &str, suffix: &str) -> (r: bool)
    ensures
        r == suffix@.is_suffix_of(s@),
{
    let whole: Vec<char> = chars_of(s);
    let tail: Vec<char> = chars_of(suffix);
    if tail.len() > whole.len() {
        return false;
    }
    let offset: usize = whole.len() - tail.len();
    let mut i: usize = 0;
    while i < tail.len()
        invariant
            whole@ == s@,
            tail@ == suffix@,
            offset + tail.len() == whole.len(),
            i <= tail.len(),
            forall|k: int| 0 <= k < i ==> whole@[offset + k] == tail@[k],
        decreases tail.len() - i,
    {
        if whole[offset + i] != tail[i] {
            assert(s@.subrange(offset as int, s@.len() as int)[i as int] != suffix@[i as int]);
            return false;
        }
        i = i + 1;
    }
    assert(suffix@ =~= s@.subrange(offset as int, s@.len() as int));
    true
}

/// Removes exactly one trailing line feed, if there is one.
pub fn trim_line_end(line: &str) -> (r: String)
    ensures
        r@ == without_line_end(line@),
{
    let n: usize = line.unicode_len();
    if n > 0 && line.get_char(n - 1) == '\n' {
        String::from_str(line.substring_char(0, n - 1))
    } else {
        String::from_str(line)
    }
}

/// `a`, a slash, then `b`, as one string.
pub fn join_with_slash(a: &str, b: &str) -> (r: String)
    ensures
        r@ == slash_joined(a@, b@),
{
    let mut r: String = String::from_str(a);
    proof {
        reveal_strlit("/");
    }
    r.append("/");
    r.append(b);
    assert(r@ =~= slash_joined(a@, b@));
    r
}

/// A slash-joined pair determines both of its parts once the first part is
/// fixed.
pub proof fn lemma_slash_joined_injective(a: Seq<char>, b: Seq<char>, c: Seq<char>)
    requires
        slash_joined(a, b) == slash_joined(a, c),
    ensures
        b == c,
{
    let left = slash_joined(a, b);
    let right = slash_joined(a, c);
    assert(left.len() == a.len() + 1 + b.len());
    assert(right.len() == a.len() + 1 + c.len());
    assert forall|i: int| 0 <= i < b.len() implies b[i] == c[i] by {
        assert(left[a.len() + 1 + i] == b[i]);
        assert(right[a.len() + 1 + i] == c[i]);
    }
    assert(b =~= c);
}

/// No text comes before itself.
pub proof fn lemma_text_precedes_irreflexive(a: Seq<char>)
    ensures
        !text_precedes(a, a),
    decreases a.len(),
{
    if a.len() > 0 {
        lemma_text_precedes_irreflexive(a.drop_first());
    }
}

} // verus!

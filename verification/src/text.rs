//! Small building blocks on character sequences that the other modules share.

use vstd::prelude::*;
use vstd::string::StringExecFns;

verus! {

/// `String::push` appends exactly one character at the end of the string.
pub assume_specification[ String::push ](s: &mut String, c: char)
    ensures
        final(s)@ == old(s)@.push(c),
;

/// The lowercase form of a text, as `str::to_lowercase` of the standard
/// library computes it from the Unicode tables.
pub uninterp spec fn lowercase_of(s: Seq<char>) -> Seq<char>;

/// Calls `str::to_lowercase`. Nothing is claimed of the result but that it is
/// the lowercase form of the argument, which depends on the argument alone.
#[verifier::external_body]
pub(crate) fn to_lowercase(s: &str) -> (lower: String)
    ensures
        lower@ == lowercase_of(s@),
{
    s.to_lowercase()
}

/// The view of an optional text.
pub open spec fn text_option_view(text: Option<String>) -> Option<Seq<char>> {
    match text {
        Some(t) => Some(t@),
        None => None,
    }
}

/// The view of an optional borrowed text.
pub open spec fn str_option_view(text: Option<&str>) -> Option<Seq<char>> {
    match text {
        Some(t) => Some(t@),
        None => None,
    }
}

/// `s` with every occurrence of `target` replaced by the text `with`; every
/// other character stays where it is.
pub open spec fn replace_char(s: Seq<char>, target: char, with: Seq<char>) -> Seq<char>
    decreases s.len(),
{
    if s.len() == 0 {
        Seq::<char>::empty()
    } else {
        replace_char(s.drop_last(), target, with) + (if s.last() == target {
            with
        } else {
            seq![s.last()]
        })
    }
}

/// Replacing in a concatenation is replacing in both parts.
pub proof fn lemma_replace_char_concat(a: Seq<char>, b: Seq<char>, target: char, with: Seq<char>)
    ensures
        replace_char(a + b, target, with) == replace_char(a, target, with) + replace_char(
            b,
            target,
            with,
        ),
    decreases b.len(),
{
    if b.len() == 0 {
        assert(a + b =~= a);
        assert(replace_char(a, target, with) + replace_char(b, target, with) =~= replace_char(
            a,
            target,
            with,
        ));
    } else {
        assert((a + b).drop_last() =~= a + b.drop_last());
        assert((a + b).last() == b.last());
        lemma_replace_char_concat(a, b.drop_last(), target, with);
        let tail = if b.last() == target {
            with
        } else {
            seq![b.last()]
        };
        assert((replace_char(a, target, with) + replace_char(b.drop_last(), target, with)) + tail
            =~= replace_char(a, target, with) + (replace_char(b.drop_last(), target, with)
            + tail));
    }
}

/// A text in which `target` does not occur is left as it is.
pub proof fn lemma_replace_char_absent(s: Seq<char>, target: char, with: Seq<char>)
    requires
        !s.contains(target),
    ensures
        replace_char(s, target, with) == s,
    decreases s.len(),
{
    if s.len() == 0 {
        assert(replace_char(s, target, with) =~= s);
    } else {
        assert(s.last() == s[s.len() - 1]);
        assert forall|c: char| s.drop_last().contains(c) implies s.contains(c) by {
            let i = choose|i: int| 0 <= i < s.drop_last().len() && s.drop_last()[i] == c;
            assert(s[i] == c);
        }
        lemma_replace_char_absent(s.drop_last(), target, with);
        assert(s.drop_last() + seq![s.last()] =~= s);
    }
}

/// Replaces every `target` in `s` by `with`.
pub fn replace(s: &str, target: char, with: &str) -> (out: String)
    ensures
        out@ == replace_char(s@, target, with@),
{
    let mut out = String::new();
    for c in it: s.chars()
        invariant
            it.seq() == s@,
            out@ == replace_char(s@.take(it.index() as int), target, with@),
    {
        assert(s@.take(it.index() + 1).drop_last() == s@.take(it.index() as int));
        if c == target {
            out.append(with);
        } else {
            out.push(c);
        }
    }
    assert(s@.take(s@.len() as int) == s@);
    out
}

/// Whether two texts hold the same characters.
pub fn same_text(a: &str, b: &str) -> (same: bool)
    ensures
        same == (a@ == b@),
{
    let left = a.to_owned();
    let right = b.to_owned();
    left == right
}

/// The two texts, one after the other.
pub fn concat(a: &str, b: &str) -> (out: String)
    ensures
        out@ == a@ + b@,
{
    let mut out = a.to_owned();
    out.append(b);
    out
}

} // verus!

//! Operations on text that the catalog's rules are written in.

use vstd::prelude::*;
use vstd::string::StrSliceExecFns;

verus! {

/// `text` with every `from` replaced by `to`, and nothing else changed.
pub open spec fn replaced(text: Seq<char>, from: char, to: char) -> Seq<char> {
    Seq::new(text.len(), |i: int| if text[i] == from { to } else { text[i] })
}

/// After `from` has been replaced by another character, the text is as long
/// as it was and holds no `from`.
pub proof fn lemma_replaced_holds_none(text: Seq<char>, from: char, to: char)
    requires
        from != to,
    ensures
        replaced(text, from, to).len() == text.len(),
        !replaced(text, from, to).contains(from),
{
}

/// Whether `text` ends with `suffix`.
pub open spec fn ends_with(text: Seq<char>, suffix: Seq<char>) -> bool {
    suffix.len() <= text.len() && text.subrange(text.len() - suffix.len(), text.len() as int)
        == suffix
}

/// Taken on trust of std's `String::push`: it appends the one character to
/// the end of the text and leaves what was there unchanged.
pub assume_specification[ String::push ](text: &mut String, ch: char)
    ensures
        final(text)@ == old(text)@.push(ch),
;

/// Copies `text`, writing `to` wherever `from` stands.
pub fn replace(text: &str, from: char, to: char) -> (out: String)
    ensures
        out@ == replaced(text@, from, to),
{
    let mut out = String::new();
    for c in it: text.chars()
        invariant
            it.seq() == text@,
            out@ == replaced(text@.take(it.index() as int), from, to),
    {
        if c == from {
            out.push(to);
        } else {
            out.push(c);
        }
    }
    out
}

/// Whether `text` ends with `suffix`, character by character.
pub fn has_suffix(text: &str, suffix: &str) -> (found: bool)
    ensures
        found == ends_with(text@, suffix@),
{
    let len = text.unicode_len();
    let tail = suffix.unicode_len();
    if tail > len {
        return false;
    }
    let start = len - tail;
    let mut i: usize = 0;
    while i < tail
        invariant
            len == text@.len(),
            tail == suffix@.len(),
            start + tail == len,
            i <= tail,
            forall|j: int| 0 <= j < i ==> text@[start + j] == suffix@[j],
        decreases tail - i,
    {
        if text.get_char(start + i) != suffix.get_char(i) {
            assert(text@.subrange(start as int, len as int)[i as int] != suffix@[i as int]);
            return false;
        }
        i += 1;
    }
    assert(text@.subrange(start as int, len as int) =~= suffix@);
    true
}

} // verus!

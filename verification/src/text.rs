//! Character-level helpers on strings, stated over their views as sequences
//! of `char`.

use vstd::prelude::*;

verus! {

/// The views of a sequence of strings, in the same order.
pub open spec fn texts(links: Seq<String>) -> Seq<Seq<char>> {
    Seq::new(links.len(), |i: int| links[i]@)
}

/// The view of an optional string.
pub open spec fn option_text(text: Option<String>) -> Option<Seq<char>> {
    match text {
        Some(s) => Some(s@),
        None => None,
    }
}

/// `texts` of a sequence extended by one string.
pub proof fn lemma_texts_push(links: Seq<String>, link: String)
    ensures
        texts(links.push(link)) == texts(links).push(link@),
{
    assert(texts(links.push(link)) =~= texts(links).push(link@));
}

/// `texts` of one sequence followed by another.
pub proof fn lemma_texts_concat(left: Seq<String>, right: Seq<String>)
    ensures
        texts(left + right) == texts(left) + texts(right),
{
    assert(texts(left + right) =~= texts(left) + texts(right));
}

/// The characters of `text`, as a vector.
pub fn to_chars(text: &str) -> (chars: Vec<char>)
    ensures
        chars@ == text@,
{
    let mut chars: Vec<char> = Vec::new();
    for c in it: text.chars()
        invariant
            chars@ == it.seq().take(it.index()),
    {
        chars.push(c);
    }
    chars
}

/// Whether `text` begins with `prefix`, character for character.
pub fn starts_with(text: &str, prefix: &str) -> (found: bool)
    ensures
        found == prefix@.is_prefix_of(text@),
{
    let whole = to_chars(text);
    let start = to_chars(prefix);
    if start.len() > whole.len() {
        return false;
    }
    let mut i: usize = 0;
    while i < start.len()
        invariant
            i <= start.len() <= whole.len(),
            whole@ == text@,
            start@ == prefix@,
            forall|j: int| 0 <= j < i ==> whole@[j] == start@[j],
        decreases start.len() - i,
    {
        if whole[i] != start[i] {
            assert(prefix@[i as int] != text@.subrange(0, prefix@.len() as int)[i as int]);
            return false;
        }
        i += 1;
    }
    assert(prefix@ =~= text@.subrange(0, prefix@.len() as int));
    true
}

/// `first`, then `second`, as one new string.
pub fn join2(first: &str, second: &str) -> (joined: String)
    ensures
        joined@ == first@ + second@,
{
    String::from_str(first).concat(second)
}

} // verus!

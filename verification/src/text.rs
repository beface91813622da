//! Character-level text operations: search for a word in a text and the
//! lowercase form of a text.
use vstd::prelude::*;

verus! {

broadcast use vstd::string::group_string_axioms;

/// Whether `word` occurs in `s` as a run of consecutive characters
/// (what `str::contains` answers for a string pattern).
pub open spec fn occurs_in(s: Seq<char>, word: Seq<char>) -> bool {
    exists|i: int| 0 <= i <= s.len() - word.len() && #[trigger] s.subrange(i, i + word.len()) == word
}

/// The characters of a string, in order.
pub fn chars_of(s: &str) -> (r: Vec<char>)
    ensures
        r@ == s@,
{
    let mut v: Vec<char> = Vec::new();
    for c in it: s.chars()
        invariant
            v@ == it.seq().take(it.index()),
    {
        v.push(c);
        assert(v@ =~= it.seq().take(it.index() + 1));
    }
    assert(v@ =~= s@);
    v
}

/// Whether `word` occurs in `s` at position `i`.
fn occurs_at(s: &Vec<char>, w: &Vec<char>, i: usize) -> (r: bool)
    requires
        i + w@.len() <= s@.len() <= usize::MAX,
    ensures
        r == (s@.subrange(i as int, i + w@.len()) == w@),
{
    let mut j: usize = 0;
    while j < w.len()
        invariant
            i + w@.len() <= s@.len(),
            s@.len() <= usize::MAX,
            j <= w@.len(),
            forall|m: int| 0 <= m < j ==> s@[i + m] == w@[m],
        decreases w@.len() - j,
    {
        if s[i + j] != w[j] {
            assert(s@.subrange(i as int, i + w@.len())[j as int] != w@[j as int]);
            return false;
        }
        j = j + 1;
    }
    assert(s@.subrange(i as int, i + w@.len()) =~= w@);
    true
}

/// Whether `word` occurs in the characters `s` (`str::contains` with a
/// string pattern).
pub fn contains_word(s: &Vec<char>, word: &str) -> (r: bool)
    ensures
        r == occurs_in(s@, word@),
{
    let w = chars_of(word);
    if w.len() > s.len() {
        return false;
    }
    let last: usize = s.len() - w.len();
    let mut i: usize = 0;
    loop
        invariant
            s@.len() <= usize::MAX,
            last == s@.len() - w@.len(),
            w@ == word@,
            i <= last,
            forall|k: int| 0 <= k < i ==> #[trigger] s@.subrange(k, k + w@.len()) != w@,
        decreases last - i,
    {
        if occurs_at(s, &w, i) {
            return true;
        }
        if i == last {
            return false;
        }
        i = i + 1;
    }
}

/// The lowercase form of a text, as `str::to_lowercase` gives it.
pub uninterp spec fn lowercase_of(s: Seq<char>) -> Seq<char>;

/// Calls `str::to_lowercase` (std). Its result is named `lowercase_of` of
/// the argument's characters; nothing more is claimed of it here (the
/// mapping follows Unicode's lowercase tables).
#[verifier::external_body]
pub(crate) fn to_lowercase(s: &str) -> (r: String)
    ensures
        r@ == lowercase_of(s@),
{
    s.to_lowercase()
}

} // verus!

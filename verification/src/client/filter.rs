//! The log filter: an entry stays visible when the lower-cased query is
//! empty or occurs in the entry's lower-cased text.
use vstd::prelude::*;
use vstd::string::*;

verus! {

/// What `str::to_lowercase` returns for a text: each character replaced by
/// its Unicode lower-case mapping. The mapping spans the Unicode character
/// database, so it has a name rather than a definition here.
pub uninterp spec fn lowercase(s: Seq<char>) -> Seq<char>;

/// Lower-cases a text with `str::to_lowercase`; the result is `lowercase`
/// of the text, a function of the text alone.
#[verifier::external_body]
fn to_lowercase(s: &str) -> (r: String)
    ensures
        r@ == lowercase(s@),
{
    s.to_lowercase()
}

/// Whether `needle` occurs in `hay` at position `i`.
pub open spec fn occurs_at(hay: Seq<char>, needle: Seq<char>, i: int) -> bool {
    0 <= i && i + needle.len() <= hay.len() && hay.subrange(i, i + needle.len()) == needle
}

/// Whether `needle` occurs in `hay` (`str::contains`).
pub open spec fn has_substring(hay: Seq<char>, needle: Seq<char>) -> bool {
    exists|i: int| occurs_at(hay, needle, i)
}

fn chars_of(s: &str) -> (r: Vec<char>)
    ensures
        r@ == s@,
{
    let n = s.unicode_len();
    let mut r: Vec<char> = Vec::new();
    for i in 0..n
        invariant
            n == s@.len(),
            r@ == s@.take(i as int),
    {
        r.push(s.get_char(i));
        assert(s@.take(i + 1) == s@.take(i as int).push(s@[i as int]));
    }
    assert(s@.take(n as int) == s@);
    r
}

fn matches_at(hay: &Vec<char>, needle: &Vec<char>, i: usize) -> (r: bool)
    requires
        i + needle@.len() <= hay@.len(),
    ensures
        r == occurs_at(hay@, needle@, i as int),
{
    let hn = hay.len();
    let mut j: usize = 0;
    while j < needle.len()
        invariant
            hn == hay@.len(),
            i + needle@.len() <= hay@.len(),
            j <= needle@.len(),
            forall|k: int| 0 <= k < j ==> hay@[i + k] == needle@[k],
        decreases needle@.len() - j,
    {
        if hay[i + j] != needle[j] {
            assert(hay@.subrange(i as int, i + needle@.len())[j as int] != needle@[j as int]);
            return false;
        }
        j += 1;
    }
    assert(hay@.subrange(i as int, i + needle@.len()) =~= needle@);
    true
}

/// Whether an entry whose lower-cased text is `text` stays visible under the
/// lower-cased query `query`.
pub fn visible_lowered(query: &str, text: &str) -> (r: bool)
    ensures
        r == (query@.len() == 0 || has_substring(text@, query@)),
{
    let q = chars_of(query);
    let t = chars_of(text);
    if q.len() == 0 {
        return true;
    }
    if q.len() > t.len() {
        assert forall|i: int| !occurs_at(t@, q@, i) by {}
        return false;
    }
    let tn = t.len();
    let last = t.len() - q.len();
    let mut i: usize = 0;
    while i <= last
        invariant
            tn == t@.len(),
            q@.len() > 0,
            last + q@.len() == t@.len(),
            q@ == query@,
            t@ == text@,
            forall|k: int| 0 <= k < i ==> !occurs_at(t@, q@, k),
        decreases last + 1 - i,
    {
        if matches_at(&t, &q, i) {
            return true;
        }
        i += 1;
    }
    assert forall|k: int| !occurs_at(t@, q@, k) by {
        if 0 <= k && k + q@.len() <= t@.len() {
            assert(k < i);
        }
    }
    false
}

/// Whether a log entry with text `text` stays visible under the filter `query`.
pub fn log_entry_visible(query: &str, text: &str) -> (r: bool)
    ensures
        r == (lowercase(query@).len() == 0 || has_substring(lowercase(text@), lowercase(query@))),
{
    let q = to_lowercase(query);
    let t = to_lowercase(text);
    visible_lowered(q.as_str(), t.as_str())
}

} // verus!

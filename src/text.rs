//! Character-level text helpers shared by the filter and the line editor.
use vstd::prelude::*;

verus! {

/// What `str::to_lowercase` makes of a character sequence.
pub uninterp spec fn lower_of(s: Seq<char>) -> Seq<char>;

/// Relies on `str::to_lowercase`: the result depends on the characters alone,
/// and an empty string stays empty.
#[verifier::external_body]
pub(crate) fn lowercase(s: &str) -> (r: String)
    ensures
        r@ == lower_of(s@),
        s@.len() == 0 ==> r@.len() == 0,
{
    s.to_lowercase()
}

/// Relies on `char::to_string`: the string that holds just `c`.
#[verifier::external_body]
pub(crate) fn char_string(c: char) -> (r: String)
    ensures
        r@ == seq![c],
{
    c.to_string()
}

/// `query` occurs in `text` as a contiguous run of characters.
pub open spec fn contains_seq(text: Seq<char>, query: Seq<char>) -> bool {
    exists|i: int|
        0 <= i && i + query.len() <= text.len() && #[trigger] text.subrange(i, i + query.len())
            == query
}

/// The characters of `s`, one per element.
pub fn chars_of(s: &str) -> (v: Vec<char>)
    ensures
        v@ == s@,
{
    let n = s.unicode_len();
    let mut v: Vec<char> = Vec::new();
    let mut i: usize = 0;
    while i < n
        invariant
            n == s@.len(),
            i <= n,
            v@ == s@.subrange(0, i as int),
        decreases n - i,
    {
        v.push(s.get_char(i));
        i = i + 1;
    }
    v
}

/// Whether the characters `q` occur in `t` starting at position `start`.
fn occurs_at(t: &Vec<char>, q: &Vec<char>, start: usize) -> (r: bool)
    requires
        start + q@.len() <= t@.len(),
    ensures
        r == (t@.subrange(start as int, start + q@.len()) == q@),
{
    let tl = t.len();
    let mut k: usize = 0;
    while k < q.len()
        invariant
            start + q@.len() <= t@.len(),
            tl == t@.len(),
            k <= q@.len(),
            forall|j: int| 0 <= j < k ==> t@[start + j] == q@[j],
        decreases q@.len() - k,
    {
        if t[start + k] != q[k] {
            assert(t@.subrange(start as int, start + q@.len())[k as int] != q@[k as int]);
            return false;
        }
        k = k + 1;
    }
    assert(t@.subrange(start as int, start + q@.len()) =~= q@);
    true
}

/// Whether `query` occurs in `text` as a contiguous run of characters; the
/// empty query occurs in every text.
pub fn text_contains(text: &str, query: &str) -> (r: bool)
    ensures
        r == contains_seq(text@, query@),
{
    let t = chars_of(text);
    let q = chars_of(query);
    if q.len() > t.len() {
        return false;
    }
    let last = t.len() - q.len();
    let mut i: usize = 0;
    loop
        invariant
            t@ == text@,
            q@ == query@,
            last == t@.len() - q@.len(),
            i <= last,
            forall|j: int| 0 <= j < i ==> #[trigger] t@.subrange(j, j + q@.len()) != q@,
        decreases last - i,
    {
        if occurs_at(&t, &q, i) {
            return true;
        }
        if i == last {
            return false;
        }
        i = i + 1;
    }
}

} // verus!

//! Text primitives that the notebook's rules are stated over: folding case,
//! finding a fragment inside a text, and measuring how many terminal columns a
//! text takes.

use unicode_width::UnicodeWidthStr;
use vstd::prelude::*;
use vstd::std_specs::iter::IteratorSpec;

verus! {

/// The lowercase form of a text, as `str::to_lowercase` of the standard
/// library computes it.
pub uninterp spec fn lowercase(s: Seq<char>) -> Seq<char>;

/// The number of terminal columns a text takes, as
/// `unicode_width::UnicodeWidthStr::width` computes it.
pub uninterp spec fn display_width(s: Seq<char>) -> usize;

/// Two titles name the same record when their lowercase forms agree.
pub open spec fn same_title(a: Seq<char>, b: Seq<char>) -> bool {
    lowercase(a) == lowercase(b)
}

/// `needle` stands in `hay` starting at position `at`.
pub open spec fn occurs_at(needle: Seq<char>, hay: Seq<char>, at: int) -> bool {
    &&& 0 <= at
    &&& at + needle.len() <= hay.len()
    &&& hay.subrange(at, at + needle.len()) == needle
}

/// `needle` stands somewhere in `hay` as a contiguous run of characters.
pub open spec fn occurs_in(needle: Seq<char>, hay: Seq<char>) -> bool {
    exists|at: int| occurs_at(needle, hay, at)
}

/// `query` is found in `text` when case is ignored on both sides.
pub open spec fn mentions(text: Seq<char>, query: Seq<char>) -> bool {
    occurs_in(lowercase(query), lowercase(text))
}

/// Wraps `str::to_lowercase`.
///
/// Trusted: the returned string is the lowercase form of `s`, which is a
/// function of the characters of `s` alone.
#[verifier::external_body]
pub(crate) fn lowercased(s: &str) -> (r: String)
    ensures
        r@ == lowercase(s@),
{
    s.to_lowercase()
}

/// The characters of a text, one by one.
pub fn chars_of(s: &str) -> (r: Vec<char>)
    ensures
        r@ == s@,
{
    let mut out: Vec<char> = Vec::new();
    for c in it: s.chars()
        invariant
            it.seq() == s@,
            out@ == s@.take(it.index() as int),
    {
        proof {
            assert(s@.take(it.index() + 1) =~= s@.take(it.index() as int).push(c));
        }
        out.push(c);
    }
    proof {
        assert(s@.take(s@.len() as int) =~= s@);
    }
    out
}

/// Tells whether `needle` stands in `hay` at position `at`.
fn stands_at(needle: &[char], hay: &[char], at: usize) -> (r: bool)
    requires
        at + needle@.len() <= hay@.len(),
    ensures
        r == occurs_at(needle@, hay@, at as int),
{
    let hay_len = hay.len();
    let mut k: usize = 0;
    while k < needle.len()
        invariant
            k <= needle.len(),
            hay_len == hay@.len(),
            at + needle@.len() <= hay@.len(),
            forall|j: int| 0 <= j < k ==> hay@[at + j] == needle@[j],
        decreases needle.len() - k,
    {
        if hay[at + k] != needle[k] {
            proof {
                let part = hay@.subrange(at as int, at + needle@.len());
                assert(part[k as int] == hay@[at + k]);
            }
            return false;
        }
        k += 1;
    }
    proof {
        assert(hay@.subrange(at as int, at + needle@.len()) =~= needle@);
    }
    true
}

/// Tells whether `needle` stands somewhere in `hay` as a contiguous run.
/// The empty run stands in every text.
pub fn occurs(needle: &[char], hay: &[char]) -> (r: bool)
    ensures
        r == occurs_in(needle@, hay@),
{
    if needle.len() > hay.len() {
        return false;
    }
    let last = hay.len() - needle.len();
    let mut at: usize = 0;
    loop
        invariant
            at <= last,
            last == hay@.len() - needle@.len(),
            forall|j: int| 0 <= j < at ==> !occurs_at(needle@, hay@, j),
        decreases last - at,
    {
        if stands_at(needle, hay, at) {
            return true;
        }
        if at == last {
            return false;
        }
        at += 1;
    }
}

/// Wraps `unicode_width::UnicodeWidthStr::width`.
///
/// Trusted: the returned count is the display width of `s`, which is a
/// function of the characters of `s` alone.
#[verifier::external_body]
pub(crate) fn width_of(s: &str) -> (w: usize)
    ensures
        w == display_width(s@),
{
    UnicodeWidthStr::width(s)
}

/// Tells whether two titles agree when case is ignored.
pub fn titles_match(a: &str, b: &str) -> (r: bool)
    ensures
        r == same_title(a@, b@),
{
    let la = lowercased(a);
    let lb = lowercased(b);
    la == lb
}

/// Tells whether `query` occurs in `text` when case is ignored.
pub fn text_mentions(text: &str, query: &str) -> (r: bool)
    ensures
        r == mentions(text@, query@),
{
    let folded_text = chars_of(lowercased(text).as_str());
    let folded_query = chars_of(lowercased(query).as_str());
    occurs(folded_query.as_slice(), folded_text.as_slice())
}

/// Naming the same record is an equivalence: every title agrees with
/// itself, the order of the two titles does not matter, and agreement
/// carries over from one pair to the next.
pub proof fn lemma_same_title_is_equivalence(a: Seq<char>, b: Seq<char>, c: Seq<char>)
    ensures
        same_title(a, a),
        same_title(a, b) == same_title(b, a),
        same_title(a, b) && same_title(b, c) ==> same_title(a, c),
{
}

} // verus!

//! Small text utilities shared by the station search, the date formatting
//! and the version check: character-level access to strings, and verified
//! substring search.

use vstd::prelude::*;
use vstd::std_specs::iter::IteratorSpec;

verus! {

/// Collects the characters of a string, in order.
pub fn chars_of(s: &str) -> (r: Vec<char>)
    ensures
        r@ == s@,
{
    let mut it = s.chars();
    let mut r: Vec<char> = Vec::new();
    loop
        invariant
            it.obeys_prophetic_iter_laws(),
            r@ + it.remaining() == s@,
        ensures
            r@ == s@,
        decreases s@.len() - r@.len(),
    {
        match it.next() {
            Some(c) => r.push(c),
            None => {
                proof {
                    assert(it.remaining().len() == 0);
                    assert(r@ =~= s@);
                }
                break ;
            },
        }
    }
    r
}

/// Relies on `String::from_iter` over characters (through `collect`): the
/// resulting string holds exactly the collected characters, in order.
#[verifier::external_body]
pub fn string_from_chars(v: &Vec<char>) -> (r: String)
    ensures
        r@ == v@,
{
    v.iter().collect()
}

/// `needle` occurs contiguously somewhere in `haystack`.
pub open spec fn contains_seq(haystack: Seq<char>, needle: Seq<char>) -> bool {
    exists|i: int|
        0 <= i <= haystack.len() - needle.len() && #[trigger] haystack.subrange(i, i + needle.len())
            == needle
}

/// Whether `needle` stands at position `i` of `haystack`.
fn match_at(haystack: &Vec<char>, needle: &Vec<char>, i: usize) -> (r: bool)
    requires
        i + needle@.len() <= haystack@.len(),
    ensures
        r == (haystack@.subrange(i as int, i + needle@.len()) == needle@),
{
    let m = needle.len();
    let hl = haystack.len();
    for j in 0..m
        invariant
            m == needle@.len(),
            hl == haystack@.len(),
            i + m <= haystack@.len(),
            forall|k: int| 0 <= k < j ==> haystack@[i + k] == needle@[k],
    {
        if haystack[i + j] != needle[j] {
            proof {
                assert(haystack@.subrange(i as int, i + m)[j as int] == haystack@[i + j]);
            }
            return false;
        }
    }
    proof {
        assert(haystack@.subrange(i as int, i + m) =~= needle@);
    }
    true
}

/// Substring search over character lists.
pub fn contains_chars(haystack: &Vec<char>, needle: &Vec<char>) -> (r: bool)
    ensures
        r == contains_seq(haystack@, needle@),
{
    let hl = haystack.len();
    let nl = needle.len();
    if nl == 0 {
        proof {
            assert(haystack@.subrange(0, 0 + needle@.len() as int) =~= needle@);
            assert(contains_seq(haystack@, needle@));
        }
        return true;
    }
    if nl > hl {
        return false;
    }
    let last = hl - nl + 1;
    for i in 0..last
        invariant
            hl == haystack@.len(),
            nl == needle@.len(),
            0 < nl <= hl,
            last == hl - nl + 1,
            forall|k: int| 0 <= k < i ==> #[trigger] haystack@.subrange(k, k + nl) != needle@,
    {
        if match_at(haystack, needle, i) {
            proof {
                assert(haystack@.subrange(i as int, i + needle@.len()) == needle@);
                assert(contains_seq(haystack@, needle@));
            }
            return true;
        }
    }
    false
}

/// Substring search: whether `needle` occurs in `haystack`.
pub fn str_contains(haystack: &str, needle: &str) -> (r: bool)
    ensures
        r == contains_seq(haystack@, needle@),
{
    let h = chars_of(haystack);
    let n = chars_of(needle);
    contains_chars(&h, &n)
}

} // verus!

//! Operations on text that the rest of the crate relies on, most of them the
//! standard library's.

use vstd::prelude::*;

verus! {

/// Whether two texts hold the same characters in the same order.
pub fn same_text(left: &str, right: &str) -> (same: bool)
    ensures
        same == (left@ == right@),
{
    left.to_owned() == right.to_owned()
}

/// `needle` occurs in `hay` as a run of neighbouring characters.
pub open spec fn has_part(hay: Seq<char>, needle: Seq<char>) -> bool {
    exists|i: int|
        0 <= i && i + needle.len() <= hay.len() && #[trigger] hay.subrange(i, i + needle.len())
            == needle
}

/// `i` is the position of the first `mark` in `s`.
pub open spec fn is_first_at(s: Seq<char>, mark: char, i: int) -> bool {
    &&& 0 <= i < s.len()
    &&& s[i] == mark
    &&& forall|j: int| 0 <= j < i ==> s[j] != mark
}

/// What follows the first `mark` in `s`; all of `s` where it holds none.
pub open spec fn after_first(s: Seq<char>, mark: char) -> Seq<char> {
    if exists|i: int| is_first_at(s, mark, i) {
        s.skip((choose|i: int| is_first_at(s, mark, i)) + 1)
    } else {
        s
    }
}

/// The lower-case form of a text by Unicode's rules, as `str::to_lowercase`
/// gives it.
pub uninterp spec fn lowercased(s: Seq<char>) -> Seq<char>;

/// The text that `String::from_utf8_lossy` reads from bytes: their UTF-8
/// reading, with the replacement character for each ill-formed part.
pub uninterp spec fn utf8_lossy(bytes: Seq<u8>) -> Seq<char>;

/// `str::contains` with a text as its pattern: whether the pattern matches a
/// run of neighbouring characters of `hay`.
#[verifier::external_body]
pub(crate) fn contains_text(hay: &str, needle: &str) -> (found: bool)
    ensures
        found == has_part(hay@, needle@),
{
    hay.contains(needle)
}

/// `str::to_lowercase`. The contract gives the result its name and says no
/// more of it.
#[verifier::external_body]
pub(crate) fn to_lowercase(s: &str) -> (lower: String)
    ensures
        lower@ == lowercased(s@),
{
    s.to_lowercase()
}

/// `String::from_utf8_lossy`, as an owned text. The contract gives the
/// result its name and says no more of it.
#[verifier::external_body]
pub(crate) fn from_utf8_lossy(bytes: &[u8]) -> (read: String)
    ensures
        read@ == utf8_lossy(bytes@),
{
    String::from_utf8_lossy(bytes).into_owned()
}

/// `str::split_once` with a character as its pattern: where `mark` occurs,
/// the text before its first occurrence and the text after it; `None` where
/// it does not occur.
#[verifier::external_body]
pub(crate) fn split_once(s: &str, mark: char) -> (parts: Option<(&str, &str)>)
    ensures
        match parts {
            Some((before, after)) => s@ == before@ + seq![mark] + after@ && !before@.contains(mark),
            None => !s@.contains(mark),
        },
{
    s.split_once(mark)
}

/// What follows the first `mark` in `s`; all of `s` where it holds none.
pub fn text_after_first(s: &str, mark: char) -> (rest: &str)
    ensures
        rest@ == after_first(s@, mark),
{
    match split_once(s, mark) {
        Some((before, after)) => {
            proof {
                let k = before@.len() as int;
                assert(s@[k] == mark);
                assert forall|j: int| 0 <= j < k implies s@[j] != mark by {
                    assert(s@[j] == before@[j]);
                    assert(before@.contains(s@[j]));
                }
                assert(is_first_at(s@, mark, k));
                let c = choose|i: int| is_first_at(s@, mark, i);
                assert(is_first_at(s@, mark, c));
                assert(c == k);
                assert(s@.skip(k + 1) =~= after@);
            }
            after
        },
        None => {
            proof {
                if exists|i: int| is_first_at(s@, mark, i) {
                    let c = choose|i: int| is_first_at(s@, mark, i);
                    assert(s@.contains(s@[c]));
                }
            }
            s
        },
    }
}

} // verus!

//! Recognising MVG global station identifiers such as `de:09162:100`.

use vstd::prelude::*;
use crate::text::{all_digits, is_ascii_digit};

verus! {

/// The pattern that a global station identifier follows: `de:`, two to five
/// digits, `:`, and at least one digit.
pub open spec fn station_id_pattern() -> Seq<char> {
    "de:[0-9]{2,5}:[0-9]+"@
}

/// An identifier starts at position `i` of `s` whose middle part has `k` digits.
pub open spec fn station_id_at(s: Seq<char>, i: int, k: int) -> bool {
    &&& 2 <= k <= 5
    &&& 0 <= i
    &&& i + k + 5 <= s.len()
    &&& s[i] == 'd'
    &&& s[i + 1] == 'e'
    &&& s[i + 2] == ':'
    &&& forall|j: int| i + 3 <= j < i + 3 + k ==> #[trigger] is_ascii_digit(s[j])
    &&& s[i + 3 + k] == ':'
    &&& is_ascii_digit(s[i + 4 + k])
}

/// `s` contains a global station identifier somewhere (the pattern is not
/// anchored, so text around it is allowed).
pub open spec fn contains_station_id(s: Seq<char>) -> bool {
    exists|i: int, k: int| station_id_at(s, i, k)
}

#[verifier::external_type_specification]
#[verifier::external_body]
pub struct ExRegexError(regex::Error);

/// Names the answer of `regex::Regex::new(pattern)?.is_match(haystack)`:
/// whether the regular expression matches anywhere in the haystack.
pub uninterp spec fn regex_finds(pattern: Seq<char>, haystack: Seq<char>) -> bool;

/// Trusted: compiles `pattern` with `regex::Regex::new` and asks
/// `Regex::is_match` about `haystack`. A compile error is handed back.
/// Claimed of the outside code: a successful answer is `regex_finds` of the
/// two strings; and for the station identifier pattern, which is valid
/// syntax far below the default size limit, compiling succeeds and the
/// answer is the unanchored match that the regex syntax documentation
/// defines (`[0-9]` is the ASCII digit class, `{2,5}` a bounded repetition,
/// `+` one or more), which `contains_station_id` writes out.
#[verifier::external_body]
pub(crate) fn regex_is_match(pattern: &str, haystack: &str) -> (r: Result<bool, regex::Error>)
    ensures
        r is Ok ==> r->Ok_0 == regex_finds(pattern@, haystack@),
        pattern@ == station_id_pattern() ==> r is Ok && r->Ok_0 == contains_station_id(haystack@),
{
    match regex::Regex::new(pattern) {
        Ok(re) => Ok(re.is_match(haystack)),
        Err(e) => Err(e),
    }
}


/// Any text holding `de:`, two to five digits, `:` and at least one digit
/// holds a global station identifier, whatever stands around it.
pub proof fn lemma_station_id_anywhere(
    x: Seq<char>,
    middle: Seq<char>,
    last: Seq<char>,
    y: Seq<char>,
)
    requires
        2 <= middle.len() <= 5,
        all_digits(middle),
        last.len() >= 1,
        all_digits(last),
    ensures
        contains_station_id(x + "de:"@ + middle + ":"@ + last + y),
{
    reveal_strlit("de:");
    reveal_strlit(":");
    let s = x + "de:"@ + middle + ":"@ + last + y;
    let i = x.len() as int;
    let k = middle.len() as int;
    assert(s[i] == 'd');
    assert(s[i + 1] == 'e');
    assert(s[i + 2] == ':');
    assert forall|j: int| i + 3 <= j < i + 3 + k implies #[trigger] is_ascii_digit(s[j]) by {
        assert(s[j] == middle[j - i - 3]);
    }
    assert(s[i + 3 + k] == ':');
    assert(s[i + 4 + k] == last[0]);
    assert(is_ascii_digit(last[0]));
    assert(station_id_at(s, i, k));
}

/// A text holds a global station identifier only where it is made of some
/// text, `de:`, two to five digits, `:`, a digit, and some text.
pub proof fn lemma_station_id_shape(s: Seq<char>)
    requires
        contains_station_id(s),
    ensures
        exists|x: Seq<char>, middle: Seq<char>, last: Seq<char>, y: Seq<char>|
            {
                &&& 2 <= middle.len() <= 5
                &&& all_digits(middle)
                &&& last.len() == 1
                &&& all_digits(last)
                &&& s == x + "de:"@ + middle + ":"@ + last + y
            },
{
    reveal_strlit("de:");
    reveal_strlit(":");
    let (i, k) = choose|i: int, k: int| station_id_at(s, i, k);
    let x = s.take(i);
    let middle = s.subrange(i + 3, i + 3 + k);
    let last = s.subrange(i + 4 + k, i + 5 + k);
    let y = s.skip(i + 5 + k);
    assert forall|j: int| 0 <= j < middle.len() implies #[trigger] is_ascii_digit(middle[j]) by {
        assert(middle[j] == s[i + 3 + j]);
    }
    assert(last[0] == s[i + 4 + k]);
    assert(s =~= x + "de:"@ + middle + ":"@ + last + y);
}

} // verus!

use vstd::prelude::*;
use vstd::utf8::is_ascii_chars;

verus! {

/// The uppercase form of a string, as `str::to_uppercase` computes it under
/// Unicode's case mapping.
pub uninterp spec fn uppercase(s: Seq<char>) -> Seq<char>;

/// Uppercase form of a single ASCII character: `a`..=`z` become `A`..=`Z`,
/// everything else is unchanged.
pub open spec fn ascii_upper_char(c: char) -> char {
    if 'a' <= c && c <= 'z' {
        ((c as int) - 32) as char
    } else {
        c
    }
}

/// Character-by-character ASCII uppercasing.
pub open spec fn ascii_upper(s: Seq<char>) -> Seq<char> {
    s.map_values(|c: char| ascii_upper_char(c))
}

/// Calls `str::to_uppercase`.
///
/// Trusted: the result is the named value `uppercase(s@)`; in addition, for
/// an all-ASCII input the result is the input with `a`..=`z` replaced by
/// `A`..=`Z` (Unicode maps these letters to their ASCII capitals and leaves
/// every other ASCII character alone). Nothing else about Unicode case
/// mapping is stated.
#[verifier::external_body]
pub(crate) fn to_uppercase(s: &str) -> (r: String)
    ensures
        r@ == uppercase(s@),
        is_ascii_chars(s@) ==> r@ == ascii_upper(s@),
{
    s.to_uppercase()
}

} // verus!

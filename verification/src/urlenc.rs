//! Percent-encoding through the `urlencoding` crate.

use vstd::prelude::*;

verus! {

/// What `urlencoding::encode` returns for a string: every byte of its
/// UTF-8 form percent-encoded except ASCII alphanumerics and `-`, `_`,
/// `.`, `~`. A function of the characters alone.
pub uninterp spec fn percent_encoded(s: Seq<char>) -> Seq<char>;

/// The characters percent-encoding leaves alone.
pub open spec fn unreserved_char(c: char) -> bool {
    ('0' <= c && c <= '9') || ('A' <= c && c <= 'Z') || ('a' <= c && c <= 'z') || c == '-'
        || c == '.' || c == '_' || c == '~'
}

/// Relies on `urlencoding::encode`: percent-encodes every byte except
/// ASCII alphanumerics and `-`, `_`, `.`, `~`; the result depends on the
/// input characters alone, and a string of unreserved characters passes
/// through unchanged.
#[verifier::external_body]
pub fn percent_encode(s: &str) -> (r: String)
    ensures
        r@ == percent_encoded(s@),
        (forall|i: int| 0 <= i < s@.len() ==> unreserved_char(#[trigger] s@[i])) ==> r@ == s@,
{
    urlencoding::encode(s).into_owned()
}

} // verus!

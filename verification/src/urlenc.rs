//! Percent-encoding of URL query values, through the urlencoding crate.

use vstd::prelude::*;

verus! {

/// The percent-encoding of a string.
pub uninterp spec fn url_encoded(s: Seq<char>) -> Seq<char>;

/// A character percent-encoding passes through unchanged: an ASCII
/// alphanumeric or one of `-`, `_`, `.`, `~`.
pub open spec fn is_url_unreserved(c: char) -> bool {
    ||| 'A' <= c <= 'Z'
    ||| 'a' <= c <= 'z'
    ||| '0' <= c <= '9'
    ||| c == '-'
    ||| c == '_'
    ||| c == '.'
    ||| c == '~'
}

/// Relies on urlencoding::encode: percent-encodes every byte except
/// ASCII alphanumerics and `-`, `_`, `.`, `~`; a string of unreserved
/// characters is therefore returned unchanged.
#[verifier::external_body]
pub fn url_encode(s: &str) -> (r: String)
    ensures
        r@ == url_encoded(s@),
        (forall|i: int| 0 <= i < s@.len() ==> is_url_unreserved(#[trigger] s@[i])) ==> r@ == s@,
{
    urlencoding::encode(s).into_owned()
}

} // verus!

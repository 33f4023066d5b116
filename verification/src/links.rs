//! Web addresses.
use vstd::prelude::*;

verus! {

/// Whether a text is an absolute URL that the `url` crate accepts.
pub uninterp spec fn url_parses(s: Seq<char>) -> bool;

/// Calls `url::Url::parse`. Claimed: whether it succeeds depends on the text
/// alone and is named `url_parses`; what the parsed address holds is not stated.
#[verifier::external_body]
pub(crate) fn url_is_valid(s: &str) -> (r: bool)
    ensures
        r == url_parses(s@),
{
    url::Url::parse(s).is_ok()
}

} // verus!

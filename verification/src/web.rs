use vstd::prelude::*;
use reqwest::Url;

verus! {

/// The URL that `reqwest::Url` (the url crate) makes of `relative` joined onto
/// the parsed `base`, as text, or nothing when either does not parse.
pub uninterp spec fn joined_url(base: Seq<char>, relative: Seq<char>) -> Option<Seq<char>>;

/// Calls `Url::parse` on `base` and `Url::join` with `relative`, and renders the
/// result with `to_string`. The result is named by `joined_url`.
#[verifier::external_body]
pub(crate) fn url_join(base: &str, relative: &str) -> (url: Option<String>)
    ensures
        url is Some <==> joined_url(base@, relative@) is Some,
        url matches Some(u) ==> joined_url(base@, relative@) == Some(u@),
{
    let base = Url::parse(base).ok()?;
    base.join(relative).ok().map(|u| u.to_string())
}

} // verus!

use azure_core::http::Url;
use vstd::prelude::*;

verus! {

/// `azure_core::http::Url`: an absolute URL. Nothing inside it is seen here;
/// a value of it is carried from where it was parsed to the request that uses it.
#[verifier::external_type_specification]
#[verifier::external_body]
pub struct ExUrl(Url);

/// The URL that `Url::parse` makes of `input`; `None` where it refuses `input`
/// as an absolute URL.
pub uninterp spec fn url_parse(input: Seq<char>) -> Option<Url>;

/// The URL that `Url::join` makes of `input` with `base` as the base; `None`
/// where it refuses `input`.
pub uninterp spec fn url_join(base: Url, input: Seq<char>) -> Option<Url>;

/// `url` after `append_pair(name, value)` on its query pairs.
pub uninterp spec fn url_with_query_pair(url: Url, name: Seq<char>, value: Seq<char>) -> Url;

/// `Url::parse`, its error dropped.
#[verifier::external_body]
pub(crate) fn parse_url(input: &str) -> (r: Option<Url>)
    ensures
        r == url_parse(input@),
{
    Url::parse(input).ok()
}

/// `Url::join`, its error dropped.
#[verifier::external_body]
pub(crate) fn join_url(base: &Url, input: &str) -> (r: Option<Url>)
    ensures
        r == url_join(*base, input@),
{
    base.join(input).ok()
}

/// `Url::query_pairs_mut` and `append_pair` on what it returns.
#[verifier::external_body]
pub(crate) fn with_query_pair(url: Url, name: &str, value: &str) -> (r: Url)
    ensures
        r == url_with_query_pair(url, name@, value@),
{
    let mut url = url;
    url.query_pairs_mut().append_pair(name, value);
    url
}

/// `Url::clone`.
#[verifier::external_body]
pub(crate) fn clone_url(url: &Url) -> (r: Url)
    ensures
        r == *url,
{
    url.clone()
}

} // verus!

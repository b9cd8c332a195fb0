use azure_core::http::headers::{HeaderName, Headers};
use vstd::prelude::*;

verus! {

/// `azure_core::http::headers::Headers`: the headers of a request or a
/// response. Nothing inside it is seen here; what it holds is `header_map`.
#[verifier::external_type_specification]
#[verifier::external_body]
pub struct ExHeaders(Headers);

/// The name/value pairs that a header collection holds, each name in the
/// lower-case form under which the collection files it.
pub uninterp spec fn header_map(headers: Headers) -> Map<Seq<char>, Seq<char>>;

/// A header name that the collection accepts as written: no upper-case ASCII letter.
pub open spec fn is_lower_name(name: Seq<char>) -> bool {
    forall|i: int| 0 <= i < name.len() ==> !('A' <= #[trigger] name[i] <= 'Z')
}

/// `Headers::get_optional_str` under a name made by `HeaderName::from_static`:
/// the value filed under exactly that name, if there is one.
#[verifier::external_body]
pub(crate) fn header_value<'a>(headers: &'a Headers, name: &'static str) -> (r: Option<&'a str>)
    requires
        is_lower_name(name@),
    ensures
        match r {
            Some(v) => header_map(*headers).contains_key(name@) && v@ == header_map(*headers)[name@],
            None => !header_map(*headers).contains_key(name@),
        },
{
    headers.get_optional_str(&HeaderName::from_static(name))
}

/// No name/value pairs.
pub open spec fn no_headers() -> Map<Seq<char>, Seq<char>> {
    Map::empty()
}

/// `Headers::new`: a collection without pairs.
#[verifier::external_body]
pub(crate) fn new_headers() -> (r: Headers)
    ensures
        header_map(r) == no_headers(),
{
    Headers::new()
}

/// Whether `name` is made of lower-case ASCII letters and hyphens only.
pub open spec fn is_plain_name(name: Seq<char>) -> bool {
    forall|i: int| 0 <= i < name.len() ==> ('a' <= #[trigger] name[i] <= 'z' || name[i] == '-')
}

/// `Headers::insert` of a literal name and value: the pair is filed under the
/// name as written, in place of what was filed there.
#[verifier::external_body]
pub(crate) fn insert_header(headers: &mut Headers, name: &'static str, value: &'static str)
    requires
        is_plain_name(name@),
    ensures
        header_map(*final(headers)) == header_map(*old(headers)).insert(name@, value@),
{
    headers.insert(name, value);
}

/// `Headers::clone`: a collection with the same pairs.
#[verifier::external_body]
pub(crate) fn clone_headers(headers: &Headers) -> (r: Headers)
    ensures
        r == *headers,
{
    headers.clone()
}

/// The header names that the polling protocol reads are written in lower case.
pub proof fn lemma_protocol_names_are_lower()
    ensures
        is_lower_name("azure-asyncoperation"@),
        is_lower_name("operation-location"@),
        is_lower_name("location"@),
        is_lower_name("retry-after-ms"@),
        is_lower_name("x-ms-retry-after-ms"@),
        is_lower_name("retry-after"@),
{
    reveal_strlit("azure-asyncoperation");
    reveal_strlit("operation-location");
    reveal_strlit("location");
    reveal_strlit("retry-after-ms");
    reveal_strlit("x-ms-retry-after-ms");
    reveal_strlit("retry-after");
}

/// The value filed under `name`, if there is one.
pub open spec fn header_of(headers: Headers, name: Seq<char>) -> Option<Seq<char>> {
    if header_map(headers).contains_key(name) {
        Some(header_map(headers)[name])
    } else {
        None
    }
}

} // verus!

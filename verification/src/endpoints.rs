use crate::api_version::ApiVersion;
use crate::site::{joined_url, resolved_url};
use crate::text::{opt_chars, push_signed_decimal, signed_decimal};
use vstd::prelude::*;

verus! {

/// The path of the details of the person numbered `person_id`.
pub open spec fn spec_person_path(person_id: int) -> Seq<char> {
    "person/"@ + signed_decimal(person_id)
}

/// The path of the combined credits of the person `person_id`.
pub open spec fn spec_combined_credits_path(person_id: Seq<char>) -> Seq<char> {
    "person/"@ + person_id + "/combined_credits"@
}

/// The address to which a request for `path` goes when the API is rooted
/// at `api_url`: the path is met at the base path of the version, and
/// that at the root.
pub open spec fn spec_request_url(api_url: Seq<char>, version: ApiVersion, path: Seq<char>) -> Option<
    Seq<char>,
> {
    match joined_url(api_url, version.spec_base_path()) {
        Some(base) => joined_url(base, path),
        None => None,
    }
}

/// The path of the details of the person numbered `person_id`.
pub fn person_path(person_id: i32) -> (path: String)
    ensures
        path@ == spec_person_path(person_id as int),
{
    let mut path = "person/".to_owned();
    push_signed_decimal(&mut path, person_id as i64);
    path
}

/// The path of the combined credits of the person `person_id`.
pub fn combined_credits_path(person_id: &str) -> (path: String)
    ensures
        path@ == spec_combined_credits_path(person_id@),
{
    let mut path = "person/".to_owned();
    path.append(person_id);
    path.append("/combined_credits");
    path
}

/// The address to which a request for `path` goes when the API is rooted
/// at `api_url`; `None` if the parts make no URL.
pub fn request_url(api_url: &str, version: ApiVersion, path: &str) -> (url: Option<String>)
    ensures
        opt_chars(url) == spec_request_url(api_url@, version, path@),
{
    match resolved_url(api_url, version.base_path()) {
        Some(base) => resolved_url(base.as_str(), path),
        None => None,
    }
}

} // verus!

//! Building the URL that one invocation of the client queries.

use vstd::prelude::*;
use vstd::string::*;

verus! {

/// The fixed collection endpoint of the solar-system API.
pub open spec fn spec_base_url() -> Seq<char> {
    "https://api.le-systeme-solaire.net/rest/bodies/"@
}

/// The URL for one request: the collection endpoint alone when no body is
/// named (list mode), or the endpoint with the identifier appended as a
/// path segment (detail mode). The identifier is not validated here; the
/// server rejects unknown names.
pub open spec fn spec_request_url(target: Option<Seq<char>>) -> Seq<char> {
    match target {
        None => spec_base_url(),
        Some(name) => spec_base_url() + name,
    }
}

/// Builds the URL that one invocation queries.
pub fn request_url(target: Option<&str>) -> (url: String)
    ensures
        target is None ==> url@ == spec_request_url(None),
        target matches Some(name) ==> url@ == spec_request_url(Some(name@)),
{
    let mut url = String::from_str("https://api.le-systeme-solaire.net/rest/bodies/");
    match target {
        None => url,
        Some(name) => {
            url.append(name);
            url
        },
    }
}

} // verus!

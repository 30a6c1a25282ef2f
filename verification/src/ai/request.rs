//! What is asked of the text generator, and where.

use vstd::prelude::*;
use vstd::string::StringExecFns;

verus! {

/// The model that is asked.
pub const DEFAULT_GEMINI_MODEL_ID: &'static str = "gemini-2.5-flash-lite-preview-06-17";

/// Where the models of the service are found.
pub const GEMINI_API_BASE_URL: &'static str =
    "https://generativelanguage.googleapis.com/v1beta/models";

/// What stands between the model and the key in the address of a request.
pub const GENERATE_WITH_KEY: &'static str = ":generateContent?key=";

/// The address that a request with the key `api_key` goes to.
pub open spec fn request_address(api_key: Seq<char>) -> Seq<char> {
    GEMINI_API_BASE_URL@ + "/"@ + DEFAULT_GEMINI_MODEL_ID@ + GENERATE_WITH_KEY@ + api_key
}

/// The address that a request with the key `api_key` goes to.
pub fn request_url(api_key: &str) -> (url: String)
    ensures
        url@ == request_address(api_key@),
{
    let mut url = String::from_str(GEMINI_API_BASE_URL);
    url.append("/");
    url.append(DEFAULT_GEMINI_MODEL_ID);
    url.append(GENERATE_WITH_KEY);
    url.append(api_key);
    url
}

/// How many candidates a request asks for: as many as are wanted, and one at
/// least.
pub fn candidate_count(num_api_candidates: u32) -> (n: u32)
    ensures
        n == if num_api_candidates < 1 {
            1
        } else {
            num_api_candidates
        },
{
    if num_api_candidates < 1 {
        1
    } else {
        num_api_candidates
    }
}

} // verus!

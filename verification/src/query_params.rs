//! Answers a lookup by the `id` query parameter.

use vstd::prelude::*;

verus! {

/// The query string's parameters.
#[derive(Debug)]
pub struct QueryParams {
    pub id: i32,
}

/// The profile that is returned.
#[derive(Debug)]
pub struct JsonResponse {
    pub id: i32,
    pub username: String,
    pub message: String,
    pub github: String,
}

/// Id 1 is the one known profile; every other id gets the "not found" profile
/// with empty message and link. The id asked for is always echoed.
pub fn query_params(query: QueryParams) -> (response: JsonResponse)
    ensures
        response.id == query.id,
        query.id == 1 ==> response.username@ == "Felix Manuel"@ && response.message@
            == "Rust Developer"@ && response.github@ == "https://github.com/FMFigueroa"@,
        query.id != 1 ==> response.username@ == "user no found"@ && response.message@ == ""@
            && response.github@ == ""@,
{
    if query.id == 1 {
        JsonResponse {
            id: query.id,
            username: "Felix Manuel".to_owned(),
            message: "Rust Developer".to_owned(),
            github: "https://github.com/FMFigueroa".to_owned(),
        }
    } else {
        JsonResponse {
            id: query.id,
            username: "user no found".to_owned(),
            message: "".to_owned(),
            github: "".to_owned(),
        }
    }
}

} // verus!

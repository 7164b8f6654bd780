//! Echoes posted credentials and fills in a default link.

use vstd::prelude::*;

verus! {

/// The posted document, and the answer.
#[derive(Debug)]
pub struct JsonResponse {
    pub username: String,
    pub password: String,
    pub github: Option<String>,
}

/// The link of an answer, given the link that was posted.
pub open spec fn github_or_default(github: Option<String>) -> Seq<char> {
    match github {
        Some(link) => link@,
        None => "https://github.com/FMFigueroa"@,
    }
}

/// Hands the document back; a missing link becomes the default one, a link
/// that was given stays.
pub fn validate_json(user: JsonResponse) -> (response: JsonResponse)
    ensures
        response.username@ == user.username@,
        response.password@ == user.password@,
        response.github matches Some(link) && link@ == github_or_default(user.github),
{
    let github = match user.github {
        None => Some("https://github.com/FMFigueroa".to_owned()),
        Some(link) => Some(link),
    };
    JsonResponse { username: user.username, password: user.password, github }
}

} // verus!
